use vstd::prelude::*;

verus! {

/// The errors a request can end in.
#[derive(Debug, Clone, PartialEq, Eq)]
pub enum AppError {
    /// The request itself is malformed; the text is shown to the client.
    InvalidInput(String),
    /// The requested resource does not exist.
    NotFound,
    /// The caller is not allowed to do this.
    Unauthorized,
    /// Login with an unknown email or a wrong password.
    InvalidCredentials,
    /// A failure inside the server; the text is for the logs only.
    Internal(String),
}

/// `std::io::Error`, an I/O failure; opaque here.
#[verifier::external_type_specification]
#[verifier::external_body]
pub struct ExIoError(std::io::Error);

/// `err.to_string()` of an I/O error: its `Display` text. Nothing is stated of
/// it (it depends on what the operating system reported).
#[verifier::external_body]
fn io_error_text(err: &std::io::Error) -> (text: String) {
    err.to_string()
}

/// HTTP status code that an error is answered with.
pub open spec fn status_of(e: AppError) -> u16 {
    match e {
        AppError::InvalidInput(_) => 400,
        AppError::NotFound => 404,
        AppError::Unauthorized => 401,
        AppError::InvalidCredentials => 401,
        AppError::Internal(_) => 500,
    }
}

/// Body text that the client receives for an error.
pub open spec fn public_body_of(e: AppError) -> Seq<char> {
    match e {
        AppError::InvalidInput(msg) => msg@,
        AppError::NotFound => "The resource was not found"@,
        AppError::Unauthorized => "Unauthorized"@,
        AppError::InvalidCredentials => "Invalid email or password"@,
        AppError::Internal(_) => "Внутренняя ошибка"@,
    }
}

impl AppError {
    /// Any I/O failure is an internal error that carries the failure's text.
    pub fn from_io_error(err: std::io::Error) -> (e: AppError)
        ensures
            e is Internal,
    {
        AppError::Internal(io_error_text(&err))
    }

    /// The HTTP status code of the response for this error.
    pub fn status_code(&self) -> (code: u16)
        ensures
            code == status_of(*self),
    {
        match self {
            AppError::InvalidInput(_) => 400,
            AppError::NotFound => 404,
            AppError::Unauthorized => 401,
            AppError::InvalidCredentials => 401,
            AppError::Internal(_) => 500,
        }
    }

    /// The body of the response for this error: the message of an invalid
    /// input, a fixed text otherwise (an internal error never shows its cause).
    pub fn public_body(&self) -> (body: String)
        ensures
            body@ == public_body_of(*self),
    {
        match self {
            AppError::InvalidInput(msg) => msg.clone(),
            AppError::NotFound => String::from_str("The resource was not found"),
            AppError::Unauthorized => String::from_str("Unauthorized"),
            AppError::InvalidCredentials => String::from_str("Invalid email or password"),
            AppError::Internal(_) => String::from_str("Внутренняя ошибка"),
        }
    }
}

/// An internal error hides its cause: two internal errors are answered alike.
pub proof fn internal_errors_answer_alike(cause1: String, cause2: String)
    ensures
        status_of(AppError::Internal(cause1)) == status_of(AppError::Internal(cause2)),
        public_body_of(AppError::Internal(cause1)) == public_body_of(AppError::Internal(cause2)),
{
}

} // verus!
