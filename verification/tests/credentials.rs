use rust_auth_demo::credential_repo::credentials_match;
use rust_auth_demo::error::{DbFailure, Error};
use rust_auth_demo::model::Credentials;
use rust_auth_demo::validation::{credentials_outcome, matches_username_pattern};

fn creds(username: &str, password: &str) -> Credentials {
    Credentials { username: username.to_string(), password: password.to_string() }
}

#[test]
fn it_should_reject_duplicated_username() {
    let failure = DbFailure { code: Some("23505".to_string()), detail: "duplicate key".into() };
    match Error::from_db(failure) {
        Error::Duplicated(_) => (),
        bad => panic!("Unexpected {:?}", bad),
    }
}

#[test]
fn it_should_reject_username_too_big() {
    let failure = DbFailure { code: Some("22001".to_string()), detail: "value too long".into() };
    match Error::from_db(failure) {
        Error::TooBig(_) => (),
        bad => panic!("Unexpected {:?}", bad),
    }
}

#[test]
fn other_database_failures_are_internal() {
    let failure = DbFailure { code: Some("08006".to_string()), detail: "gone".into() };
    match Error::from_db(failure) {
        Error::Other(detail) => assert_eq!(detail, "gone"),
        bad => panic!("Unexpected {:?}", bad),
    }
    let failure = DbFailure { code: None, detail: "pool timed out".into() };
    assert!(matches!(Error::from_db(failure), Error::Other(_)));
}

#[test]
fn it_should_find_valid_credentials() {
    assert!(credentials_match(Some(true)));
}

#[test]
fn it_should_not_find_when_username_is_wrong() {
    let is_valid = credentials_match(None);
    assert!(is_valid == false);
}

#[test]
fn it_should_not_find_when_password_is_wrong() {
    let is_valid = credentials_match(Some(false));
    assert!(is_valid == false);
}

#[test]
fn good_credentials_pass() {
    assert!(creds("foo", "bar12345").validate().is_ok());
    assert!(creds("a", "12345678").validate().is_ok());
    assert!(creds(&"a".repeat(42), "12345678").validate().is_ok());
    assert!(creds("Ab1", "pässwörd").validate().is_ok());
}

#[test]
fn username_size_is_checked_first() {
    assert!(matches!(creds("", "x").validate(), Err(Error::BadUsernameSize(1, 42))));
    assert!(matches!(
        creds(&"a".repeat(43), "12345678").validate(),
        Err(Error::BadUsernameSize(1, 42))
    ));
    assert!(matches!(creds(&"1".repeat(43), "").validate(), Err(Error::BadUsernameSize(1, 42))));
}

#[test]
fn password_size_is_checked_second() {
    assert!(matches!(creds("foo", "1234567").validate(), Err(Error::BadPasswordSize(8))));
    assert!(matches!(creds("1foo", "").validate(), Err(Error::BadPasswordSize(8))));
    // eight grapheme clusters, sixteen chars: "e" and a combining acute accent
    let accented = "e\u{301}".repeat(8);
    assert!(creds("foo", &accented).validate().is_ok());
    let short = "e\u{301}".repeat(7) + "x";
    assert!(creds("foo", &short).validate().is_ok());
    let too_short = "e\u{301}".repeat(7);
    assert!(matches!(creds("foo", &too_short).validate(), Err(Error::BadPasswordSize(8))));
}

#[test]
fn username_sizes_count_graphemes() {
    // 42 clusters of two chars each
    let long = "e\u{301}".repeat(42);
    assert!(matches!(creds(&long, "12345678").validate(), Err(Error::BadUsername)));
    let too_long = "e\u{301}".repeat(43);
    assert!(matches!(
        creds(&too_long, "12345678").validate(),
        Err(Error::BadUsernameSize(1, 42))
    ));
}

#[test]
fn username_pattern_is_checked_last() {
    assert!(matches!(creds("1foo", "12345678").validate(), Err(Error::BadUsername)));
    assert!(matches!(creds("foo-bar", "12345678").validate(), Err(Error::BadUsername)));
    assert!(matches!(creds("foo ", "12345678").validate(), Err(Error::BadUsername)));
    assert!(matches!(creds("föo", "12345678").validate(), Err(Error::BadUsername)));
}

#[test]
fn username_pattern_cases() {
    assert!(matches_username_pattern("a"));
    assert!(matches_username_pattern("Zz09"));
    assert!(matches_username_pattern("abc123def"));
    assert!(!matches_username_pattern(""));
    assert!(!matches_username_pattern("9a"));
    assert!(!matches_username_pattern("a_b"));
    assert!(!matches_username_pattern("a\n"));
    assert!(!matches_username_pattern("ab\u{301}"));
}

#[test]
fn credentials_outcome_reports_bad_json_with_the_parser_status() {
    match credentials_outcome(Err((422, "missing field `password`".to_string()))) {
        Err((status, error)) => {
            assert_eq!(status, 422);
            assert_eq!(error.status, 400);
            assert_eq!(
                error.display_message,
                "The JSON input is invalid. Details: missing field `password`"
            );
        }
        Ok(_) => panic!("a failure was expected"),
    }
}

#[test]
fn credentials_outcome_reports_broken_rules() {
    match credentials_outcome(Ok(creds("foo", "short"))) {
        Err((status, error)) => {
            assert_eq!(status, 400);
            assert_eq!(error.status, 400);
            assert_eq!(error.display_message, "Password must contain at least 8 characters.");
        }
        Ok(_) => panic!("a failure was expected"),
    }
    match credentials_outcome(Ok(creds("", "bar12345"))) {
        Err((_, error)) => {
            assert_eq!(error.display_message, "Username must be between 1 and 42 characters.")
        }
        Ok(_) => panic!("a failure was expected"),
    }
}

#[test]
fn credentials_outcome_passes_valid_credentials() {
    assert_eq!(credentials_outcome(Ok(creds("foo", "bar12345"))).unwrap(), creds("foo", "bar12345"));
}
