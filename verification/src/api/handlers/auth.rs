use vstd::prelude::*;

use crate::domain::models::User;
use crate::domain::password::{argon2_verification, parses_as_phc, verify_password};
use crate::error::AppError;
use crate::ids::{id_to_text, uuid_parsed, uuid_text};
use crate::jwt::{
    claims_at, encode_claims, expiry_at, hs256_claims, hs256_token, is_hs256_compact, unix_now, Claims,
    LATEST_CLOCK_SECOND, TOKEN_LIFETIME_SECONDS,
};
use crate::validation::{
    char_count_within, check_char_count, is_valid_email, single_field, ErrorView,
    FieldErrorsView, Validate, ValidationError, ValidationErrors, email_is_valid, has_entry,
};

verus! {

/// The body of a login request.
#[derive(Debug, Clone, PartialEq, Eq)]
pub struct LoginRequest {
    pub email: String,
    pub password: String,
}

/// The answer to a successful login: a signed access token.
#[derive(Debug, Clone, PartialEq, Eq)]
pub struct AuthResponse {
    pub token: String,
}

/// The rules on a login request: a well-formed email, a non-empty password.
pub open spec fn login_request_rules(email: Seq<char>, password: Seq<char>) -> Seq<FieldErrorsView> {
    (if is_valid_email(email) {
        Seq::empty()
    } else {
        single_field("email"@, ErrorView { code: "email"@, message: None })
    }) + (if char_count_within(password, 1, None) {
        Seq::empty()
    } else {
        single_field(
            "password"@,
            ErrorView { code: "length"@, message: Some("The password cannot be empty."@) },
        )
    })
}

impl Validate for LoginRequest {
    open spec fn broken_rules(&self) -> Seq<FieldErrorsView> {
        login_request_rules(self.email@, self.password@)
    }

    /// The email must be well formed and the password must not be empty.
    fn validate(&self) -> (outcome: Result<(), ValidationErrors>) {
        let mut errors = ValidationErrors::new();
        proof {
            reveal_strlit("email");
            reveal_strlit("password");
        }
        if !email_is_valid(self.email.as_str()) {
            errors.add_field("email", ValidationError::new("email"));
        }
        assert(!has_entry(errors@, "password"@)) by {
            assert("email"@.len() != "password"@.len());
        }
        if !check_char_count(self.password.as_str(), 1, None) {
            errors.add_field(
                "password",
                ValidationError::new("length").with_message("The password cannot be empty."),
            );
        }
        assert(errors@ =~= login_request_rules(self.email@, self.password@));
        if errors.is_empty() {
            Ok(())
        } else {
            Err(errors)
        }
    }
}

/// A login request is valid exactly when its email is well formed and its
/// password is not empty; each field is reported exactly when its own rule
/// fails.
pub proof fn login_request_law(req: LoginRequest)
    ensures
        req.broken_rules().len() == 0 <==> (is_valid_email(req.email@) && req.password@.len() >= 1),
        has_entry(req.broken_rules(), "email"@) <==> !is_valid_email(req.email@),
        has_entry(req.broken_rules(), "password"@) <==> req.password@.len() == 0,
{
    reveal_strlit("email");
    reveal_strlit("password");
    assert("email"@.len() != "password"@.len());
    let rules = req.broken_rules();
    let email_ok = is_valid_email(req.email@);
    let password_ok = req.password@.len() >= 1;
    if !email_ok {
        assert(rules[0].field == "email"@);
    }
    if !password_ok {
        assert(rules[rules.len() - 1].field == "password"@);
    }
    if has_entry(rules, "email"@) {
        let i = choose|i: int| 0 <= i < rules.len() && (#[trigger] rules[i]).field == "email"@;
        if email_ok {
            assert(rules[i].field == "password"@);
        }
    }
    if has_entry(rules, "password"@) {
        let i = choose|i: int| 0 <= i < rules.len() && (#[trigger] rules[i]).field == "password"@;
        if password_ok {
            assert(rules[i].field == "email"@);
        }
    }
}

/// Decides a login at the clock second `now`, once the user with the given
/// email has been looked up: an unknown email or a wrong password is
/// `InvalidCredentials`, a stored hash that is not a PHC string is an internal
/// error, and a right password gets the claims of a token for that user that
/// expires 24 hours after `now` (an internal error where that second is beyond
/// the range of an `i64`; like every expiry, it is held as a `usize`).
pub fn login_claims_at(user: Option<&User>, password: &str, now: i64) -> (claims: Result<Claims, AppError>)
    ensures
        user is None ==> claims matches Err(AppError::InvalidCredentials),
        user matches Some(u) ==> (!parses_as_phc(u.password_hash@) ==> claims matches Err(
            AppError::Internal(_),
        )),
        user matches Some(u) ==> (parses_as_phc(u.password_hash@) && !argon2_verification(
            password@,
            u.password_hash@,
        ) ==> claims matches Err(AppError::InvalidCredentials)),
        user matches Some(u) ==> (parses_as_phc(u.password_hash@) && argon2_verification(
            password@,
            u.password_hash@,
        ) ==> (now + TOKEN_LIFETIME_SECONDS <= i64::MAX <==> claims is Ok)),
        user matches Some(u) ==> (parses_as_phc(u.password_hash@) && argon2_verification(
            password@,
            u.password_hash@,
        ) && now + TOKEN_LIFETIME_SECONDS > i64::MAX ==> claims matches Err(AppError::Internal(_))),
        claims matches Ok(c) ==> user matches Some(u) && c.sub@ == uuid_text(u.id) && uuid_parsed(
            c.sub@,
        ) == Some(u.id),
        claims matches Ok(c) ==> c.exp == (now + TOKEN_LIFETIME_SECONDS) as usize,
        claims matches Ok(c) ==> (0 <= now + TOKEN_LIFETIME_SECONDS <= usize::MAX ==> c.exp == now
            + TOKEN_LIFETIME_SECONDS),
{
    let u = match user {
        Some(u) => u,
        None => return Err(AppError::InvalidCredentials),
    };
    let matched = verify_password(password, u.password_hash.as_str())?;
    if !matched {
        return Err(AppError::InvalidCredentials);
    }
    let subject = id_to_text(u.id);
    match claims_at(subject.as_str(), now) {
        Some(c) => Ok(c),
        None => Err(AppError::Internal(String::from_str("Time calculation error"))),
    }
}

/// Decides a login now: `login_claims_at` at the clock's current second, so a
/// right password gets claims that expire 24 hours from now. Which second the
/// clock reads is not stated.
pub fn login_claims(user: Option<&User>, password: &str) -> (claims: Result<Claims, AppError>)
    ensures
        user is None ==> claims matches Err(AppError::InvalidCredentials),
        user matches Some(u) ==> (!parses_as_phc(u.password_hash@) ==> claims matches Err(
            AppError::Internal(_),
        )),
        user matches Some(u) ==> (parses_as_phc(u.password_hash@) && !argon2_verification(
            password@,
            u.password_hash@,
        ) ==> claims matches Err(AppError::InvalidCredentials)),
        user matches Some(u) ==> (parses_as_phc(u.password_hash@) && argon2_verification(
            password@,
            u.password_hash@,
        ) ==> claims is Ok),
        claims matches Ok(c) ==> user matches Some(u) && c.sub@ == uuid_text(u.id) && uuid_parsed(
            c.sub@,
        ) == Some(u.id),
        claims matches Ok(c) ==> exists|now: i64|
            now <= LATEST_CLOCK_SECOND && #[trigger] expiry_at(now) == Some(c.exp),
{
    let now = unix_now();
    let claims = login_claims_at(user, password, now);
    proof {
        if claims is Ok {
            assert(expiry_at(now) == Some(claims->Ok_0.exp));
        }
    }
    claims
}

/// Decides a login as `login_claims` does, and for a right password signs the
/// token (HS256 under `secret`). The token is a non-empty compact JWS with the
/// HS256 header; under `secret` it reads back as the user's id, a subject that
/// `validate_token` turns into that user and no other.
pub fn login_token(user: Option<&User>, password: &str, secret: &str) -> (token: Result<String, AppError>)
    ensures
        user is None ==> token matches Err(AppError::InvalidCredentials),
        user matches Some(u) ==> (!parses_as_phc(u.password_hash@) ==> token matches Err(
            AppError::Internal(_),
        )),
        user matches Some(u) ==> (parses_as_phc(u.password_hash@) && !argon2_verification(
            password@,
            u.password_hash@,
        ) ==> token matches Err(AppError::InvalidCredentials)),
        user matches Some(u) ==> (parses_as_phc(u.password_hash@) && argon2_verification(
            password@,
            u.password_hash@,
        ) ==> token is Ok),
        token matches Ok(t) ==> user matches Some(u) && uuid_parsed(uuid_text(u.id)) == Some(u.id)
            && is_hs256_compact(t@) && exists|exp: nat|
            #[trigger] hs256_token(uuid_text(u.id), exp, secret@) == t@ && hs256_claims(t@, secret@)
                == Some((uuid_text(u.id), exp)) && exists|now: i64|
                now <= LATEST_CLOCK_SECOND && #[trigger] expiry_at(now) == Some(exp as usize),
{
    let claims = login_claims(user, password)?;
    match encode_claims(&claims, secret) {
        Ok(t) => {
            assert(hs256_token(claims.sub@, claims.exp as nat, secret@) == t@);
            Ok(t)
        },
        Err(_) => Err(AppError::Internal(String::from_str("Token signing error"))),
    }
}

} // verus!
