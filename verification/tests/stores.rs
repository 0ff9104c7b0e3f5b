use auth_service::domain::{
    BannedTokenStore, BannedTokenStoreError, Email, EmailClient, LoginAttemptId, Password,
    TwoFACode, TwoFACodeStore, TwoFACodeStoreError, User, UserStore, UserStoreError,
};
use auth_service::services::data_stores::postgres_user_store::{
    add_user_outcome, compute_password_hash, get_user_outcome, new_user_row, parallelism_fits,
    validate_user_outcome, verify_password_hash, FetchOutcome, InsertOutcome, UserRow,
};
use auth_service::services::data_stores::redis_banned_token_store::{
    is_token_banned_outcome, store_token_decision, store_token_outcome, BannedTokenRecord,
};
use auth_service::services::data_stores::redis_banned_token_store;
use auth_service::services::data_stores::redis_two_fa_code_store;
use auth_service::services::data_stores::redis_two_fa_code_store::{
    challenge_from_pair, challenge_record, read_challenge, write_outcome, StoredChallenge,
};
use auth_service::services::data_stores::{
    HashmapTwoFACodeStore, HashmapUserStore, HashsetBannedTokenStore, MockEmailClient, SentEmail,
};
use auth_service::utils::constants::is_record_live;

fn email(text: &str) -> Email {
    Email::parse(text.to_string()).unwrap()
}

fn password(text: &str) -> Password {
    Password::parse(text.to_string()).unwrap()
}

fn test_user() -> User {
    User {
        email: email("test@gmail.com"),
        password: password("password"),
        requires_2fa: false,
    }
}

#[test]
fn hashmap_user_store_test_add_user() {
    let mut store = HashmapUserStore::default();
    let user = test_user();
    assert_eq!(store.add_user(user.clone()), Ok(()));
    assert_eq!(store.add_user(user), Err(UserStoreError::UserAlreadyExists));
}

#[test]
fn hashmap_user_store_test_get_user() {
    let mut store = HashmapUserStore::default();
    let user = test_user();
    assert_eq!(store.get_user(&email("test@gmail.com")), Err(UserStoreError::UserNotFound));
    assert_eq!(store.add_user(user.clone()), Ok(()));
    assert_eq!(store.get_user(&email("test@gmail.com")), Ok(user));
}

#[test]
fn hashmap_user_store_test_validate_user() {
    let mut store = HashmapUserStore::default();
    let user = test_user();
    assert_eq!(
        store.validate_user(&email("test@gmail.com"), &password("password")),
        Err(UserStoreError::UserNotFound)
    );
    store.add_user(user.clone()).unwrap();
    assert_eq!(store.validate_user(&email("test@gmail.com"), &password("password")), Ok(()));
    assert_eq!(
        store.validate_user(&email("test@gmail.com"), &password("wrongpassword")),
        Err(UserStoreError::InvalidCredentials)
    );
}

#[test]
fn user_store_keeps_the_first_user_of_an_address() {
    let mut store = HashmapUserStore::new();
    store.add_user(test_user()).unwrap();
    let other = User::new(email("test@gmail.com"), password("another-one"), true);
    assert_eq!(store.add_user(other), Err(UserStoreError::UserAlreadyExists));
    assert_eq!(store.get_user(&email("test@gmail.com")), Ok(test_user()));
    // Lookup is by exact address.
    assert_eq!(store.get_user(&email("Test@gmail.com")), Err(UserStoreError::UserNotFound));
}

#[test]
fn test_banned_token_store() {
    let mut store = HashsetBannedTokenStore::default();

    let token = "test_token".to_string();
    assert!(store.store_token(token.clone()).is_ok());

    assert!(store.store_token(token.clone()).is_err());

    assert!(store.is_token_banned(&token).unwrap());
}

#[test]
fn banned_token_store_reports_only_what_was_revoked() {
    let mut store = HashsetBannedTokenStore::new();
    assert_eq!(store.is_token_banned(&"a".to_string()), Ok(false));
    assert_eq!(store.store_token("a".to_string()), Ok(()));
    assert_eq!(store.store_token("a".to_string()), Err(BannedTokenStoreError::TokenAlreadyExists));
    assert_eq!(store.is_token_banned(&"a".to_string()), Ok(true));
    assert_eq!(store.is_token_banned(&"b".to_string()), Ok(false));
}

#[test]
fn revocation_record_lasts_for_the_token_lifetime() {
    let mut store = HashsetBannedTokenStore::new();
    store.advance_clock(1_000);
    store.store_token("t".to_string()).unwrap();
    store.advance_clock(1_599);
    assert_eq!(store.is_token_banned(&"t".to_string()), Ok(true));
    // An earlier reading does not turn the clock back.
    store.advance_clock(5);
    assert_eq!(store.is_token_banned(&"t".to_string()), Ok(true));
    store.advance_clock(1_600);
    assert_eq!(store.is_token_banned(&"t".to_string()), Ok(false));
    // Once the record has lapsed, the token can be revoked anew.
    assert_eq!(store.store_token("t".to_string()), Ok(()));
    assert_eq!(store.is_token_banned(&"t".to_string()), Ok(true));
}

#[test]
fn record_live_is_a_half_open_window() {
    assert!(is_record_live(10, 10, 600));
    assert!(is_record_live(10, 609, 600));
    assert!(!is_record_live(10, 610, 600));
    assert!(!is_record_live(10, 9, 600));
    assert!(!is_record_live(0, 0, 0));
    assert!(is_record_live(u64::MAX, u64::MAX, 1));
    assert!(!is_record_live(0, u64::MAX, u64::MAX));
}

#[test]
fn challenge_store_add_get_remove() {
    let mut store = HashmapTwoFACodeStore::default();
    let e = email("a@x.com");
    let id = LoginAttemptId::generate();
    let code = TwoFACode::parse("123456".to_string()).unwrap();
    assert_eq!(store.get_code(&e), Err(TwoFACodeStoreError::LoginAttemptIdNotFound));
    assert_eq!(store.add_code(e.clone(), id.clone(), code.clone()), Ok(()));
    assert_eq!(store.get_code(&e), Ok((id.clone(), code.clone())));
    assert_eq!(store.get_code(&email("b@x.com")), Err(TwoFACodeStoreError::LoginAttemptIdNotFound));
    assert_eq!(store.remove_code(&e), Ok(()));
    assert_eq!(store.get_code(&e), Err(TwoFACodeStoreError::LoginAttemptIdNotFound));
    // Removing where there is none is no error.
    assert_eq!(store.remove_code(&e), Ok(()));
}

#[test]
fn challenge_store_overwrites_the_slot_of_an_address() {
    let mut store = HashmapTwoFACodeStore::new();
    let e = email("a@x.com");
    let first = LoginAttemptId::generate();
    let second = LoginAttemptId::generate();
    store.add_code(e.clone(), first, TwoFACode::parse("111111".to_string()).unwrap()).unwrap();
    store
        .add_code(e.clone(), second.clone(), TwoFACode::parse("222222".to_string()).unwrap())
        .unwrap();
    assert_eq!(
        store.get_code(&e),
        Ok((second, TwoFACode::parse("222222".to_string()).unwrap()))
    );
}

#[test]
fn challenge_expires_after_ten_minutes() {
    let mut store = HashmapTwoFACodeStore::new();
    let e = email("a@x.com");
    store.advance_clock(100);
    store
        .add_code(e.clone(), LoginAttemptId::generate(), TwoFACode::generate())
        .unwrap();
    store.advance_clock(699);
    assert!(store.get_code(&e).is_ok());
    store.advance_clock(700);
    assert_eq!(store.get_code(&e), Err(TwoFACodeStoreError::LoginAttemptIdNotFound));
    // A new challenge for the address is live again.
    store
        .add_code(e.clone(), LoginAttemptId::generate(), TwoFACode::generate())
        .unwrap();
    assert!(store.get_code(&e).is_ok());
}

#[test]
fn mock_email_client_keeps_what_it_was_given() {
    let mut client = MockEmailClient::default();
    assert!(client.messages().is_empty());
    assert_eq!(client.send_email(&email("a@x.com"), "Subject", "Body"), Ok(()));
    assert_eq!(client.send_email(&email("b@x.com"), "Other", "Text"), Ok(()));
    assert_eq!(
        client.messages(),
        &vec![
            SentEmail {
                recipient: "a@x.com".to_owned(),
                subject: "Subject".to_owned(),
                content: "Body".to_owned()
            },
            SentEmail {
                recipient: "b@x.com".to_owned(),
                subject: "Other".to_owned(),
                content: "Text".to_owned()
            },
        ]
    );
}

#[test]
fn password_hash_accepts_its_password_and_no_other() {
    let hash = compute_password_hash("password123".to_string()).unwrap();
    assert!(hash.starts_with("$argon2id$v=19$m=15000,t=2,p=1$"));
    assert_ne!(hash, "password123");
    assert_eq!(verify_password_hash(hash.clone(), "password123".to_string()), Ok(()));
    assert_eq!(
        verify_password_hash(hash.clone(), "password124".to_string()),
        Err(UserStoreError::InvalidCredentials)
    );
    // A fresh salt each time.
    let again = compute_password_hash("password123".to_string()).unwrap();
    assert_ne!(hash, again);
    assert_eq!(verify_password_hash(again, "password123".to_string()), Ok(()));
}

#[test]
fn a_text_that_is_no_hash_accepts_nothing() {
    assert_eq!(
        verify_password_hash("password123".to_string(), "password123".to_string()),
        Err(UserStoreError::InvalidCredentials)
    );
    assert_eq!(
        verify_password_hash("".to_string(), "".to_string()),
        Err(UserStoreError::InvalidCredentials)
    );
}

#[test]
fn new_user_row_holds_the_hash_in_place_of_the_password() {
    let user = User::new(email("a@x.com"), password("password123"), true);
    let row = new_user_row(&user).unwrap();
    assert_eq!(row.email, "a@x.com");
    assert!(row.requires_2fa);
    assert_ne!(row.password_hash, "password123");
    assert_eq!(verify_password_hash(row.password_hash, "password123".to_string()), Ok(()));
}

#[test]
fn insert_outcomes_map_to_store_errors() {
    assert_eq!(add_user_outcome(InsertOutcome::Inserted), Ok(()));
    assert_eq!(
        add_user_outcome(InsertOutcome::DatabaseError(Some("23505".to_string()))),
        Err(UserStoreError::UserAlreadyExists)
    );
    assert_eq!(
        add_user_outcome(InsertOutcome::DatabaseError(Some("23503".to_string()))),
        Err(UserStoreError::UnexpectedError)
    );
    assert_eq!(
        add_user_outcome(InsertOutcome::DatabaseError(None)),
        Err(UserStoreError::UnexpectedError)
    );
    assert_eq!(add_user_outcome(InsertOutcome::OtherError), Err(UserStoreError::UnexpectedError));
}

#[test]
fn fetch_outcomes_map_to_users_and_store_errors() {
    let row = UserRow {
        email: "a@x.com".to_string(),
        password_hash: "$argon2id$stored".to_string(),
        requires_2fa: true,
    };
    let user = get_user_outcome(FetchOutcome::Found(row)).unwrap();
    assert_eq!(user.email.as_ref(), "a@x.com");
    assert_eq!(user.password.as_ref(), "$argon2id$stored");
    assert!(user.requires_2fa);
    assert_eq!(get_user_outcome(FetchOutcome::RowNotFound), Err(UserStoreError::UserNotFound));
    assert_eq!(get_user_outcome(FetchOutcome::OtherError), Err(UserStoreError::UnexpectedError));
    let bad_email = UserRow {
        email: "not-an-email".to_string(),
        password_hash: "$argon2id$stored".to_string(),
        requires_2fa: false,
    };
    assert_eq!(
        get_user_outcome(FetchOutcome::Found(bad_email)),
        Err(UserStoreError::UnexpectedError)
    );
    let bad_hash = UserRow {
        email: "a@x.com".to_string(),
        password_hash: "short".to_string(),
        requires_2fa: false,
    };
    assert_eq!(
        get_user_outcome(FetchOutcome::Found(bad_hash)),
        Err(UserStoreError::UnexpectedError)
    );
}

#[test]
fn validate_user_outcome_checks_the_stored_hash() {
    let user = User::new(email("a@x.com"), password("password123"), false);
    let row = new_user_row(&user).unwrap();
    let stored = get_user_outcome(FetchOutcome::Found(row)).unwrap();
    assert_eq!(validate_user_outcome(Ok(stored.clone()), &password("password123")), Ok(()));
    assert_eq!(
        validate_user_outcome(Ok(stored), &password("password124")),
        Err(UserStoreError::InvalidCredentials)
    );
    assert_eq!(
        validate_user_outcome(Err(UserStoreError::UserNotFound), &password("password123")),
        Err(UserStoreError::UserNotFound)
    );
    assert_eq!(
        validate_user_outcome(Err(UserStoreError::UnexpectedError), &password("password123")),
        Err(UserStoreError::UnexpectedError)
    );
}

#[test]
fn banned_token_record_is_a_marker_under_the_prefixed_key() {
    assert_eq!(redis_banned_token_store::get_key("abc.def"), "banned_token:abc.def");
    assert_eq!(redis_banned_token_store::get_key(""), "banned_token:");
    let record = redis_banned_token_store::banned_token_record("abc.def");
    assert_eq!(record.key, "banned_token:abc.def");
    assert!(record.marker);
    assert_eq!(record.ttl_seconds, 600);
}

#[test]
fn challenge_record_is_a_json_pair_under_the_prefixed_key() {
    let e = email("a@x.com");
    let id = LoginAttemptId::parse("936da01f-9abd-4d9d-80c7-02af85c822a8".to_string()).unwrap();
    let code = TwoFACode::parse("123456".to_string()).unwrap();
    assert_eq!(redis_two_fa_code_store::get_key(&e), "two_fa_code:a@x.com");
    let record = challenge_record(&e, &id, &code).unwrap();
    assert_eq!(record.key, "two_fa_code:a@x.com");
    assert_eq!(record.value, "[\"936da01f-9abd-4d9d-80c7-02af85c822a8\",\"123456\"]");
    assert_eq!(record.ttl_seconds, 600);
    assert_eq!(read_challenge(StoredChallenge::Value(record.value)), Ok((id, code)));
}

#[test]
fn read_challenge_tells_absent_from_unexpected() {
    assert_eq!(
        read_challenge(StoredChallenge::Absent),
        Err(TwoFACodeStoreError::LoginAttemptIdNotFound)
    );
    assert_eq!(
        read_challenge(StoredChallenge::ReadFailed),
        Err(TwoFACodeStoreError::UnexpectedError)
    );
    assert_eq!(
        read_challenge(StoredChallenge::Value("not json".to_string())),
        Err(TwoFACodeStoreError::UnexpectedError)
    );
    assert_eq!(
        read_challenge(StoredChallenge::Value(
            "[\"936da01f-9abd-4d9d-80c7-02af85c822a8\"]".to_string()
        )),
        Err(TwoFACodeStoreError::UnexpectedError)
    );
    assert_eq!(
        read_challenge(StoredChallenge::Value("[\"no-uuid\",\"123456\"]".to_string())),
        Err(TwoFACodeStoreError::UnexpectedError)
    );
    assert_eq!(
        read_challenge(StoredChallenge::Value(
            "[\"936da01f-9abd-4d9d-80c7-02af85c822a8\",\"12345\"]".to_string()
        )),
        Err(TwoFACodeStoreError::UnexpectedError)
    );
    let read = read_challenge(StoredChallenge::Value(
        " [ \"936DA01F-9ABD-4D9D-80C7-02AF85C822A8\" , \"654321\" ] ".to_string(),
    ))
    .unwrap();
    assert_eq!(read.0.as_ref(), "936da01f-9abd-4d9d-80c7-02af85c822a8");
    assert_eq!(read.1.as_ref(), "654321");
}

#[test]
fn challenge_record_escapes_nothing_it_need_not() {
    let e = email("a@x.com");
    let id = LoginAttemptId::parse("550e8400-e29b-41d4-a716-446655440000".to_string()).unwrap();
    let code = TwoFACode::parse("123456".to_string()).unwrap();
    let record = challenge_record(&e, &id, &code).unwrap();
    assert_eq!(record.key, "two_fa_code:a@x.com");
    assert_eq!(record.value, "[\"550e8400-e29b-41d4-a716-446655440000\",\"123456\"]");
    assert_eq!(record.ttl_seconds, 600);
}

#[test]
fn a_backend_write_that_failed_is_unexpected() {
    assert_eq!(write_outcome(true), Ok(()));
    assert_eq!(write_outcome(false), Err(TwoFACodeStoreError::UnexpectedError));
    assert_eq!(store_token_outcome(true), Ok(()));
    assert_eq!(store_token_outcome(false), Err(BannedTokenStoreError::UnexpectedError));
}

#[test]
fn durable_revocation_lookup_and_conflict() {
    assert_eq!(is_token_banned_outcome(Some(true)), Ok(true));
    assert_eq!(is_token_banned_outcome(Some(false)), Ok(false));
    assert_eq!(is_token_banned_outcome(None), Err(BannedTokenStoreError::UnexpectedError));
    assert_eq!(
        store_token_decision("abc", Ok(true)),
        Err(BannedTokenStoreError::TokenAlreadyExists)
    );
    assert_eq!(
        store_token_decision("abc", Ok(false)),
        Ok(BannedTokenRecord { key: "banned_token:abc".to_owned(), marker: true, ttl_seconds: 600 })
    );
    assert_eq!(
        store_token_decision("abc", Err(BannedTokenStoreError::UnexpectedError)),
        Err(BannedTokenStoreError::UnexpectedError)
    );
}

#[test]
fn parallelism_is_judged_by_the_last_parameter_named_p() {
    let p = |name: &str, value: Option<u32>| (name.to_owned(), value);
    assert!(parallelism_fits(&vec![]));
    assert!(parallelism_fits(&vec![p("m", Some(15000)), p("t", Some(2)), p("p", Some(1))]));
    assert!(parallelism_fits(&vec![p("p", Some(0xFF_FFFF))]));
    assert!(!parallelism_fits(&vec![p("p", Some(0x100_0000))]));
    assert!(!parallelism_fits(&vec![p("m", Some(16)), p("p", Some(536_870_912))]));
    assert!(parallelism_fits(&vec![p("p", Some(536_870_912)), p("p", Some(1))]));
    assert!(!parallelism_fits(&vec![p("p", Some(1)), p("p", Some(536_870_912)), p("t", Some(2))]));
    assert!(parallelism_fits(&vec![p("p", None)]));
    assert!(parallelism_fits(&vec![p("m", Some(u32::MAX)), p("t", Some(u32::MAX))]));
}

#[test]
fn a_hash_that_names_too_many_lanes_accepts_nothing() {
    let salt_and_output = "c29tZXNhbHQ$RdescudvJCsgt3ub+b+dWRWJTmaaJObG";
    for params in [
        "m=16,t=2,p=536870912",
        "m=4294967295,t=2,p=4294967295",
        "m=16,t=2,p=16777216",
        "m=16,t=2,p=1,p=536870912",
    ] {
        let hash = format!("$argon2id$v=19${}${}", params, salt_and_output);
        assert_eq!(
            verify_password_hash(hash, "password".to_string()),
            Err(UserStoreError::InvalidCredentials),
            "Failed for input: {:?}",
            params
        );
    }
    // The last parameter named p counts: this one is handed to the hasher,
    // which does not accept the candidate.
    let hash = format!("$argon2id$v=19$m=16,t=2,p=536870912,p=1${}", salt_and_output);
    assert_eq!(
        verify_password_hash(hash, "password".to_string()),
        Err(UserStoreError::InvalidCredentials)
    );
}

#[test]
fn a_hash_made_elsewhere_with_other_costs_is_still_verified() {
    // Password "password", salt "somesalt", two passes over 64 MiB.
    let hash = "$argon2id$v=19$m=65536,t=2,p=1$c29tZXNhbHQ$CTFhFdXPJO1aFaMaO6Mm5c8y7cJHAph8ArZWb2GRPPc";
    assert_eq!(verify_password_hash(hash.to_string(), "password".to_string()), Ok(()));
    assert_eq!(
        verify_password_hash(hash.to_string(), "passwore".to_string()),
        Err(UserStoreError::InvalidCredentials)
    );
}

#[test]
fn challenge_from_pair_parses_both_parts() {
    let ok = challenge_from_pair(
        "936da01f9abd4d9d80c702af85c822a8".to_string(),
        "000001".to_string(),
    )
    .unwrap();
    assert_eq!(ok.0.as_ref(), "936da01f-9abd-4d9d-80c7-02af85c822a8");
    assert_eq!(ok.1.as_ref(), "000001");
    assert_eq!(
        challenge_from_pair("x".to_string(), "000001".to_string()),
        Err(TwoFACodeStoreError::UnexpectedError)
    );
    assert_eq!(
        challenge_from_pair("936da01f9abd4d9d80c702af85c822a8".to_string(), "1".to_string()),
        Err(TwoFACodeStoreError::UnexpectedError)
    );
}
