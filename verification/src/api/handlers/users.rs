use vstd::prelude::*;

use crate::domain::models::{User, UserProfile};
use crate::domain::password::{
    argon2_verification, hash_password, parses_as_phc, MAX_PASSWORD_CHARS,
};
use crate::error::AppError;
use crate::ids::{is_random_uuid, new_id};
use crate::validation::{
    char_count_within, check_char_count, email_is_valid, is_valid_email, password_is_strong,
    password_problem, password_rule,
    has_entry, report, single_field, validate_input, validate_password, ErrorView, FieldErrorsView,
    Validate, ValidationError, ValidationErrors,
};

verus! {

/// The body of a registration request.
#[derive(Debug, Clone, PartialEq, Eq)]
pub struct CreateUserRequest {
    pub username: String,
    pub email: String,
    pub password: String,
}

/// A user ready to be stored: a fresh id and the hash of the password.
#[derive(Debug, Clone, PartialEq, Eq)]
pub struct NewUser {
    pub id: u128,
    pub username: String,
    pub email: String,
    pub password_hash: String,
}

/// The rules on a registration: a username of 3 to 40 characters, a
/// well-formed email and a strong password.
pub open spec fn create_user_rules(req: &CreateUserRequest) -> Seq<FieldErrorsView> {
    (if char_count_within(req.username@, 3, Some(40)) {
        Seq::empty()
    } else {
        single_field(
            "username"@,
            ErrorView {
                code: "length"@,
                message: Some("Username must be between 3 and 50 characters"@),
            },
        )
    }) + (if is_valid_email(req.email@) {
        Seq::empty()
    } else {
        single_field(
            "email"@,
            ErrorView { code: "email"@, message: Some("Invalid email format"@) },
        )
    }) + (match password_problem(req.password@) {
        None => Seq::empty(),
        Some(code) => single_field("password"@, ErrorView { code, message: None }),
    })
}

impl Validate for CreateUserRequest {
    open spec fn broken_rules(&self) -> Seq<FieldErrorsView> {
        create_user_rules(self)
    }

    /// The username must hold 3 to 40 characters, the email must be well
    /// formed and the password must pass `validate_password`.
    fn validate(&self) -> (outcome: Result<(), ValidationErrors>) {
        let mut errors = ValidationErrors::new();
        proof {
            reveal_strlit("username");
            reveal_strlit("email");
            reveal_strlit("password");
        }
        if !check_char_count(self.username.as_str(), 3, Some(40)) {
            errors.add_field(
                "username",
                ValidationError::new("length").with_message(
                    "Username must be between 3 and 50 characters",
                ),
            );
        }
        assert(!has_entry(errors@, "email"@)) by {
            assert("username"@.len() != "email"@.len());
        }
        if !email_is_valid(self.email.as_str()) {
            errors.add_field(
                "email",
                ValidationError::new("email").with_message("Invalid email format"),
            );
        }
        assert(!has_entry(errors@, "password"@)) by {
            assert("username"@[0] != "password"@[0]);
            assert("email"@.len() != "password"@.len());
        }
        match validate_password(self.password.as_str()) {
            Ok(()) => {},
            Err(e) => errors.add_field("password", e),
        }
        assert(errors@ =~= create_user_rules(self));
        if errors.is_empty() {
            Ok(())
        } else {
            Err(errors)
        }
    }
}

/// A registration is valid exactly when the username has 3 to 40 characters,
/// the email is well formed and the password is strong; each field is reported
/// exactly when its own rule fails, whatever the others.
pub proof fn registration_rules_law(req: CreateUserRequest)
    ensures
        req.broken_rules().len() == 0 <==> (3 <= req.username@.len() <= 40 && is_valid_email(req.email@)
            && password_is_strong(req.password@)),
        has_entry(req.broken_rules(), "username"@) <==> !(3 <= req.username@.len() <= 40),
        has_entry(req.broken_rules(), "email"@) <==> !is_valid_email(req.email@),
        has_entry(req.broken_rules(), "password"@) <==> !password_is_strong(req.password@),
{
    reveal_strlit("username");
    reveal_strlit("email");
    reveal_strlit("password");
    password_rule(req.password@);
    assert("username"@[0] != "password"@[0]);
    assert("username"@.len() != "email"@.len());
    assert("email"@.len() != "password"@.len());
    let u = if char_count_within(req.username@, 3, Some(40)) {
        Seq::<FieldErrorsView>::empty()
    } else {
        single_field(
            "username"@,
            ErrorView { code: "length"@, message: Some("Username must be between 3 and 50 characters"@) },
        )
    };
    let e = if is_valid_email(req.email@) {
        Seq::<FieldErrorsView>::empty()
    } else {
        single_field("email"@, ErrorView { code: "email"@, message: Some("Invalid email format"@) })
    };
    let w = match password_problem(req.password@) {
        None => Seq::<FieldErrorsView>::empty(),
        Some(code) => single_field("password"@, ErrorView { code, message: None }),
    };
    let rules = req.broken_rules();
    assert(rules == u + e + w);
    assert forall|f: Seq<char>| has_entry(rules, f) <==> (has_entry(u, f) || has_entry(e, f) || has_entry(w, f)) by {
        if has_entry(rules, f) {
            let i = choose|i: int| 0 <= i < rules.len() && (#[trigger] rules[i]).field == f;
            if i < u.len() {
                assert(u[i] == rules[i]);
            } else if i < u.len() + e.len() {
                assert(e[i - u.len()] == rules[i]);
            } else {
                assert(w[i - u.len() - e.len()] == rules[i]);
            }
        }
        if has_entry(u, f) {
            let i = choose|i: int| 0 <= i < u.len() && (#[trigger] u[i]).field == f;
            assert(rules[i] == u[i]);
        }
        if has_entry(e, f) {
            let i = choose|i: int| 0 <= i < e.len() && (#[trigger] e[i]).field == f;
            assert(rules[u.len() + i] == e[i]);
        }
        if has_entry(w, f) {
            let i = choose|i: int| 0 <= i < w.len() && (#[trigger] w[i]).field == f;
            assert(rules[u.len() + e.len() + i] == w[i]);
        }
    }
    if u.len() != 0 {
        assert(u[0].field == "username"@);
    }
    if e.len() != 0 {
        assert(e[0].field == "email"@);
    }
    if w.len() != 0 {
        assert(w[0].field == "password"@);
    }
}

/// Turns a registration request into the user to store: the request must
/// pass its rules (else `InvalidInput` with the report of the broken ones),
/// then the password is hashed and a fresh id is drawn.
pub fn prepare_new_user(payload: CreateUserRequest) -> (new_user: Result<NewUser, AppError>)
    ensures
        create_user_rules(&payload).len() != 0 ==> (new_user matches Err(AppError::InvalidInput(msg))
            && msg@ == report(create_user_rules(&payload))),
        create_user_rules(&payload).len() == 0 && payload.password@.len() <= MAX_PASSWORD_CHARS
            ==> new_user is Ok,
        create_user_rules(&payload).len() == 0 ==> (new_user is Ok || new_user matches Err(
            AppError::Internal(_),
        )),
        new_user matches Ok(u) ==> is_random_uuid(u.id),
        new_user matches Ok(u) ==> u.username == payload.username && u.email == payload.email
            && parses_as_phc(u.password_hash@) && argon2_verification(
            payload.password@,
            u.password_hash@,
        ),
{
    validate_input(&payload)?;
    let password_hash = hash_password(payload.password.as_str())?;
    let id = new_id();
    Ok(NewUser { id, username: payload.username, email: payload.email, password_hash })
}

/// The profile answered for a user just created: their id and name, no bio.
pub fn profile_of_new_user(user: &User) -> (profile: UserProfile)
    ensures
        profile.id == user.id,
        profile.username == user.username,
        profile.bio is None,
{
    UserProfile { id: user.id, username: user.username.clone(), bio: None }
}

} // verus!
