use chat_backend::api::handlers::auth::LoginRequest;
use chat_backend::api::handlers::chats::CreateGroupChatReq;
use chat_backend::api::handlers::users::CreateUserRequest;
use chat_backend::domain::models::SendMessageRequest;
use chat_backend::error::AppError;
use chat_backend::validation::{
    check_char_count, contains_char_of, format_validation_errors,
    validate_input, validate_password, CharClass, FieldErrors, Validate, ValidationError,
    ValidationErrors,
};

fn code_of(r: Result<(), ValidationError>) -> Option<String> {
    match r {
        Ok(()) => None,
        Err(e) => {
            assert!(e.message.is_none());
            Some(e.code)
        }
    }
}

#[test]
fn strong_password_is_accepted() {
    assert_eq!(code_of(validate_password("SecurePass123")), None);
    assert_eq!(code_of(validate_password("Abcdefg1")), None);
}

#[test]
fn short_password_is_refused() {
    assert_eq!(code_of(validate_password("Ab1")), Some("password_too_short".to_string()));
    assert_eq!(code_of(validate_password("")), Some("password_too_short".to_string()));
    assert_eq!(code_of(validate_password("Abcdef1")), Some("password_too_short".to_string()));
}

#[test]
fn password_length_is_counted_in_characters() {
    // 7 characters in 11 bytes: too short.
    assert_eq!(code_of(validate_password("Ab1éééé")), Some("password_too_short".to_string()));
    // 8 characters: long enough.
    assert_eq!(code_of(validate_password("Ab1ééééé")), None);
}

#[test]
fn weak_password_is_refused() {
    let weak = Some("incorrect_password_complexity".to_string());
    assert_eq!(code_of(validate_password("abcdefgh1")), weak);
    assert_eq!(code_of(validate_password("ABCDEFGH1")), weak);
    assert_eq!(code_of(validate_password("Abcdefghi")), weak);
}

#[test]
fn password_letter_classes_are_unicode() {
    assert_eq!(code_of(validate_password("Äöüßxyz3")), None);
    assert!(contains_char_of("ж", CharClass::Lowercase));
    assert!(contains_char_of("Ж", CharClass::Uppercase));
    assert!(contains_char_of("7", CharClass::Digit));
    assert!(!contains_char_of("abc", CharClass::Digit));
    assert!(!contains_char_of("", CharClass::Uppercase));
}

#[test]
fn password_needs_a_decimal_digit() {
    let weak = Some("incorrect_password_complexity".to_string());
    assert_eq!(code_of(validate_password("Abcdefg¾")), weak);
    assert_eq!(code_of(validate_password("Abcdefg٣")), weak);
    assert!(!contains_char_of("¾٣Ⅷ", CharClass::Digit));
    assert_eq!(code_of(validate_password("Abcdefg0")), None);
    assert_eq!(code_of(validate_password("Abcdefg9")), None);
}

#[test]
fn errors_of_one_field_share_its_entry() {
    let mut errors = ValidationErrors::new();
    errors.add_field("title", err("length", None));
    errors.add_field("members", err("length", Some("none")));
    errors.add_field("title", err("custom", Some("bad")));
    assert_eq!(errors.fields.len(), 2);
    assert_eq!(errors.fields[0].errors.len(), 2);
    assert_eq!(format_validation_errors(&errors), "title: length, bad; members: none");
}

#[test]
fn char_count_bounds() {
    assert!(check_char_count("abc", 3, Some(40)));
    assert!(!check_char_count("ab", 3, Some(40)));
    assert!(check_char_count("жжж", 3, Some(3)));
    assert!(!check_char_count("abcd", 3, Some(3)));
    assert!(check_char_count("x", 1, None));
    assert!(!check_char_count("", 1, None));
}

fn email_ok(email: &str) -> bool {
    LoginRequest { email: email.to_string(), password: "x".to_string() }.validate().is_ok()
}

#[test]
fn email_rule() {
    assert!(email_ok("alice@example.com"));
    assert!(!email_ok("not-an-email"));
    assert!(!email_ok(""));
    assert!(!email_ok("a@"));
}

fn err(code: &str, message: Option<&str>) -> ValidationError {
    let e = ValidationError::new(code);
    match message {
        Some(m) => e.with_message(m),
        None => e,
    }
}

#[test]
fn report_uses_message_or_code() {
    let mut errors = ValidationErrors::new();
    assert!(errors.is_empty());
    errors.add_field("username", err("length", Some("too short")));
    errors.add_field("password", err("password_too_short", None));
    assert!(!errors.is_empty());
    assert_eq!(
        format_validation_errors(&errors),
        "username: too short; password: password_too_short"
    );
}

#[test]
fn report_joins_errors_of_one_field() {
    let errors = ValidationErrors {
        fields: vec![FieldErrors {
            field: "title".to_string(),
            errors: vec![err("length", None), err("custom", Some("bad"))],
        }],
    };
    assert_eq!(format_validation_errors(&errors), "title: length, bad");
    assert_eq!(format_validation_errors(&ValidationErrors::new()), "");
}

#[test]
fn registration_rules_report_all_fields() {
    let req = CreateUserRequest {
        username: "x".to_string(),
        email: "not-an-email".to_string(),
        password: "123".to_string(),
    };
    match validate_input(&req) {
        Err(AppError::InvalidInput(msg)) => assert_eq!(
            msg,
            "username: Username must be between 3 and 50 characters; email: Invalid email format; password: password_too_short"
        ),
        other => panic!("unexpected {:?}", other),
    }
}

#[test]
fn registration_rules_accept_valid_request() {
    let req = CreateUserRequest {
        username: "alice".to_string(),
        email: "alice@example.com".to_string(),
        password: "SecurePass123".to_string(),
    };
    assert!(req.validate().is_ok());
    assert_eq!(validate_input(&req), Ok(()));
}

#[test]
fn username_longer_than_forty_is_refused() {
    let req = CreateUserRequest {
        username: "a".repeat(41),
        email: "alice@example.com".to_string(),
        password: "SecurePass123".to_string(),
    };
    let errs = req.validate().unwrap_err();
    assert_eq!(errs.fields.len(), 1);
    assert_eq!(errs.fields[0].field, "username");
    let ok = CreateUserRequest { username: "a".repeat(40), ..req };
    assert!(ok.validate().is_ok());
}

#[test]
fn login_request_rules() {
    let req = LoginRequest { email: "alice@example.com".to_string(), password: String::new() };
    match validate_input(&req) {
        Err(AppError::InvalidInput(msg)) => {
            assert_eq!(msg, "password: The password cannot be empty.")
        }
        other => panic!("unexpected {:?}", other),
    }
    let bad = LoginRequest { email: "nope".to_string(), password: "x".to_string() };
    match validate_input(&bad) {
        Err(AppError::InvalidInput(msg)) => assert_eq!(msg, "email: email"),
        other => panic!("unexpected {:?}", other),
    }
}

#[test]
fn group_chat_request_rules() {
    let req = CreateGroupChatReq { title: "ab".to_string(), members: vec![] };
    match validate_input(&req) {
        Err(AppError::InvalidInput(msg)) => assert_eq!(
            msg,
            "title: Title must be between 3 and 100 characters.; members: At least one member os required"
        ),
        other => panic!("unexpected {:?}", other),
    }
    let ok = CreateGroupChatReq { title: "test_group".to_string(), members: vec![7] };
    assert!(ok.validate().is_ok());
}

#[test]
fn message_content_rules() {
    let empty = SendMessageRequest { content: String::new() };
    match validate_input(&empty) {
        Err(AppError::InvalidInput(msg)) => assert_eq!(
            msg,
            "content: The message must contain between 1 and 32,768 characters."
        ),
        other => panic!("unexpected {:?}", other),
    }
    let longest = SendMessageRequest { content: "ж".repeat(32768) };
    assert!(longest.validate().is_ok());
    let too_long = SendMessageRequest { content: "a".repeat(32769) };
    assert!(too_long.validate().is_err());
    let hello = SendMessageRequest { content: "Привет, Боб! (REST)".to_string() };
    assert_eq!(validate_input(&hello), Ok(()));
}
