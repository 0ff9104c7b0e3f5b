use auth_service::domain::{AuthAPIError, Email, ErrorResponse, LoginAttemptId, Password, TwoFACode, User};
use fake::faker::internet::en::{Password as FakePassword, SafeEmail};
use fake::Fake;
use quickcheck::QuickCheck;
use validator::{validate_email, validate_length};

#[test]
fn test_email_parse_valid() {
    let email_str: String = SafeEmail().fake();
    let email = Email::parse(email_str.clone());
    assert!(email.is_ok());
    assert_eq!(email.unwrap().as_ref(), email_str);
}

fn prop_email_parse_valid(email_str: String) -> bool {
    if validate_email(&email_str) {
        let email = Email::parse(email_str.clone());
        email.is_ok() && email.unwrap().as_ref() == email_str
    } else {
        true
    }
}

#[test]
fn test_email_parse_valid_quickcheck() {
    QuickCheck::new().tests(20).quickcheck(prop_email_parse_valid as fn(String) -> bool);
}

#[test]
fn test_email_parse_invalid() {
    let email_str = "invalid-email-format".to_string();
    let email = Email::parse(email_str);
    assert!(email.is_err());
}

fn prop_email_parse_invalid(email_str: String) -> bool {
    if !validate_email(&email_str) {
        let email = Email::parse(email_str.clone());
        email.is_err()
    } else {
        true
    }
}

#[test]
fn test_email_parse_invalid_quickcheck() {
    QuickCheck::new().tests(20).quickcheck(prop_email_parse_invalid as fn(String) -> bool);
}

#[test]
fn email_parse_keeps_the_text_it_was_given() {
    let email = Email::parse("a@x.com".to_string()).unwrap();
    assert_eq!(email.as_ref(), "a@x.com");
    let mixed = Email::parse("Some.One+tag@Example.COM".to_string()).unwrap();
    assert_eq!(mixed.as_ref(), "Some.One+tag@Example.COM");
    assert_eq!(mixed.clone(), mixed);
    assert!(mixed.same_as(&mixed.clone()));
    assert!(!mixed.same_as(&email));
}

#[test]
fn email_parse_rejects_empty_missing_at_and_missing_local_part() {
    assert_eq!(Email::parse("".to_string()), Err(AuthAPIError::InvalidCredentials));
    assert_eq!(Email::parse("123carlos.com".to_string()), Err(AuthAPIError::InvalidCredentials));
    assert_eq!(Email::parse("random_email.es".to_string()), Err(AuthAPIError::InvalidCredentials));
    assert_eq!(Email::parse("@x.com".to_string()), Err(AuthAPIError::InvalidCredentials));
    assert_eq!(Email::parse("@a@x.com".to_string()), Err(AuthAPIError::InvalidCredentials));
    assert_eq!(Email::parse("a@".to_string()), Err(AuthAPIError::InvalidCredentials));
}

#[test]
fn test_password_parse_valid() {
    let pass_str: String = FakePassword(8..18).fake();
    let pass = Password::parse(pass_str.clone());
    assert!(pass.is_ok());
    assert_eq!(pass.unwrap().as_ref(), pass_str);
}

fn prop_password_parse_valid(pass_str: String) -> bool {
    if validate_length(&pass_str, Some(8), None, None) {
        let pass = Password::parse(pass_str.clone());
        pass.is_ok() && pass.unwrap().as_ref() == pass_str
    } else {
        true
    }
}

#[test]
fn test_password_parse_valid_quickcheck() {
    QuickCheck::new().tests(20).quickcheck(prop_password_parse_valid as fn(String) -> bool);
}

#[test]
fn test_password_parse_invalid() {
    let pass_str = "short".to_string();
    let pass = Password::parse(pass_str);
    assert!(pass.is_err());
    assert_eq!(pass.err().unwrap(), AuthAPIError::InvalidCredentials);
}

fn prop_password_parse_invalid(pass_str: String) -> bool {
    if !validate_length(&pass_str, Some(8), None, None) {
        let pass = Password::parse(pass_str);
        pass.is_err() && pass.err().unwrap() == AuthAPIError::InvalidCredentials
    } else {
        true
    }
}

#[test]
fn test_password_parse_invalid_quickcheck() {
    QuickCheck::new().tests(20).quickcheck(prop_password_parse_invalid as fn(String) -> bool);
}

#[test]
fn password_length_is_counted_in_characters_and_eight_is_enough() {
    assert!(Password::parse("1234567".to_string()).is_err());
    assert_eq!(Password::parse("12345678".to_string()).unwrap().as_ref(), "12345678");
    // Seven characters, though more than eight bytes.
    assert!(Password::parse("ääääää7".to_string()).is_err());
    assert!(Password::parse("ääääää78".to_string()).is_ok());
    assert!(Password::parse("".to_string()).is_err());
}

#[test]
fn login_attempt_id_parse_gives_the_hyphenated_lower_case_form() {
    let id = LoginAttemptId::parse("936DA01F9ABD4D9D80C702AF85C822A8".to_string()).unwrap();
    assert_eq!(id.as_ref(), "936da01f-9abd-4d9d-80c7-02af85c822a8");
    let same = LoginAttemptId::parse("936da01f-9abd-4d9d-80c7-02af85c822a8".to_string()).unwrap();
    assert_eq!(same.as_ref(), "936da01f-9abd-4d9d-80c7-02af85c822a8");
    assert!(id.same_as(&same));
    assert_eq!(id, same);
    let urn = LoginAttemptId::parse("urn:uuid:936da01f-9abd-4d9d-80c7-02af85c822a8".to_string());
    assert_eq!(urn.unwrap().as_ref(), "936da01f-9abd-4d9d-80c7-02af85c822a8");
}

#[test]
fn login_attempt_id_parse_rejects_what_is_no_uuid() {
    assert_eq!(
        LoginAttemptId::parse("string".to_string()),
        Err("Invalid LoginAttemptId format".to_owned())
    );
    assert!(LoginAttemptId::parse("".to_string()).is_err());
    assert!(LoginAttemptId::parse("936da01f-9abd-4d9d-80c7-02af85c822a".to_string()).is_err());
    assert!(LoginAttemptId::parse("936da01f-9abd-4d9d-80c7-02af85c822ag".to_string()).is_err());
}

#[test]
fn login_attempt_id_generate_is_a_fresh_version_4_uuid() {
    let first = LoginAttemptId::generate();
    let second = LoginAttemptId::default();
    assert_eq!(first.as_ref().len(), 36);
    assert_eq!(first.as_ref().as_bytes()[14], b'4');
    assert!(!first.same_as(&second));
    let again = LoginAttemptId::parse(first.as_ref().to_string()).unwrap();
    assert_eq!(again, first);
}

#[test]
fn two_fa_code_parse_accepts_exactly_six_digits() {
    assert_eq!(TwoFACode::parse("123456".to_string()).unwrap().as_ref(), "123456");
    assert_eq!(TwoFACode::parse("000000".to_string()).unwrap().as_ref(), "000000");
    assert_eq!(
        TwoFACode::parse("12345".to_string()),
        Err("Invalid TwoFACode format".to_owned())
    );
    assert!(TwoFACode::parse("1234567".to_string()).is_err());
    assert!(TwoFACode::parse("12345a".to_string()).is_err());
    assert!(TwoFACode::parse("InvalidCode123".to_string()).is_err());
    assert!(TwoFACode::parse("".to_string()).is_err());
    assert!(TwoFACode::parse(" 12345".to_string()).is_err());
    // Six characters that are digits elsewhere, but not ASCII digits.
    assert!(TwoFACode::parse("１２３４５６".to_string()).is_err());
    // Six bytes, three characters.
    assert!(TwoFACode::parse("äää".to_string()).is_err());
}

#[test]
fn two_fa_code_generate_gives_six_digits() {
    let mut seen_different = false;
    let first = TwoFACode::generate();
    for _ in 0..50 {
        let code = TwoFACode::default();
        assert_eq!(code.as_ref().len(), 6);
        assert!(code.as_ref().chars().all(|c| c.is_ascii_digit()));
        assert_eq!(TwoFACode::parse(code.as_ref().to_string()).unwrap(), code);
        if !code.same_as(&first) {
            seen_different = true;
        }
    }
    assert!(seen_different);
}

#[test]
fn user_new_keeps_its_parts() {
    let email = Email::parse("a@x.com".to_string()).unwrap();
    let password = Password::parse("password123".to_string()).unwrap();
    let user = User::new(email.clone(), password.clone(), true);
    assert_eq!(user.email, email);
    assert_eq!(user.password, password);
    assert!(user.requires_2fa);
    assert_eq!(user.clone(), user);
}

#[test]
fn each_error_kind_has_its_status_and_message() {
    let cases = [
        (AuthAPIError::UserAlreadyExists, 409, "User already exists"),
        (AuthAPIError::InvalidCredentials, 400, "Invalid credentials"),
        (AuthAPIError::IncorrectCredentials, 401, "Incorrect credentials"),
        (AuthAPIError::MissingToken, 400, "Missing token"),
        (AuthAPIError::InvalidToken, 401, "Invalid token"),
        (AuthAPIError::UnexpectedError, 500, "Unexpected error"),
    ];
    for (error, status, message) in cases {
        assert_eq!(error.status_code(), status);
        assert_eq!(error.message(), message);
        assert_eq!(
            error.into_response(),
            (status, ErrorResponse { error: message.to_owned() })
        );
    }
}

#[test]
fn error_chain_report_lists_the_causes_between_separators() {
    let separator =
        "\n-----------------------------------------------------------------------------------\n";
    assert_eq!(
        auth_service::domain::log_error_chain("UnexpectedError", &vec![]),
        format!("{}UnexpectedError\n\n{}", separator, separator)
    );
    assert_eq!(
        auth_service::domain::log_error_chain(
            "UnexpectedError",
            &vec!["failed to set 2FA code".to_owned(), "connection refused".to_owned()]
        ),
        format!(
            "{}UnexpectedError\n\nCaused by:\n\nfailed to set 2FA code\nCaused by:\n\nconnection refused\n{}",
            separator, separator
        )
    );
}
