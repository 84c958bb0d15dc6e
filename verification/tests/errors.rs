use rust_auth_demo::error::{catcher_error, default_catcher, to_failure, DbFailure, Error, HttpError};
use rust_auth_demo::text::{decimal_text, signed_decimal_text};

fn db() -> DbFailure {
    DbFailure { code: None, detail: String::new() }
}

#[test]
fn statuses() {
    assert_eq!(Error::Duplicated(db()).status(), 400);
    assert_eq!(Error::TooBig(db()).status(), 400);
    assert_eq!(Error::BadUsername.status(), 400);
    assert_eq!(Error::BadUsernameSize(1, 42).status(), 400);
    assert_eq!(Error::BadPasswordSize(8).status(), 400);
    assert_eq!(Error::BadJson("x".into()).status(), 400);
    assert_eq!(Error::BadCredentials.status(), 401);
    assert_eq!(Error::BadToken.status(), 401);
    assert_eq!(Error::Other("x".into()).status(), 500);
}

#[test]
fn messages() {
    assert_eq!(Error::Duplicated(db()).message(), "Duplicated username.");
    assert_eq!(Error::TooBig(db()).message(), "Username is too big.");
    assert_eq!(Error::BadCredentials.message(), "Username and/or password mismatch.");
    assert_eq!(Error::BadToken.message(), "Token does not represent an authenticated user.");
    assert_eq!(
        Error::BadJson("EOF while parsing".into()).message(),
        "The JSON input is invalid. Details: EOF while parsing"
    );
    assert_eq!(
        Error::BadUsername.message(),
        "Username must be alphanumeric and it must start with a letter."
    );
    assert_eq!(
        Error::BadUsernameSize(1, 42).message(),
        "Username must be between 1 and 42 characters."
    );
    assert_eq!(
        Error::BadPasswordSize(8).message(),
        "Password must contain at least 8 characters."
    );
    assert_eq!(Error::Other("secret detail".into()).message(), "Sorry, we failed.");
}

#[test]
fn http_error_of_an_error() {
    let e = HttpError::from_error(Error::BadToken);
    assert_eq!(e.status, 401);
    assert_eq!(e.display_message, "Token does not represent an authenticated user.");
    let e = HttpError::new(418, "teapot".to_string());
    assert_eq!(e.status, 418);
    assert_eq!(e.display_message, "teapot");
    let e = HttpError::from_json_error("trailing comma".into());
    assert_eq!(e.status, 400);
    assert_eq!(e.display_message, "The JSON input is invalid. Details: trailing comma");
}

#[test]
fn failures_carry_the_error_status() {
    let (status, e) = to_failure(Error::Other("boom".into()));
    assert_eq!(status, 500);
    assert_eq!(e.status, 500);
    assert_eq!(e.display_message, "Sorry, we failed.");
    let (status, _) = to_failure(Error::BadUsername);
    assert_eq!(status, 400);
}

#[test]
fn default_catcher_uses_the_reason_phrase() {
    let e = default_catcher(404);
    assert_eq!(e.status, 404);
    assert_eq!(e.display_message, "Not Found");
    let e = default_catcher(422);
    assert_eq!(e.display_message, "Unprocessable Entity");
    let e = default_catcher(499);
    assert_eq!(e.status, 499);
    assert_eq!(e.display_message, "Unknown error.");
}

#[test]
fn catcher_error_falls_back() {
    assert_eq!(catcher_error(500, None).display_message, "Unknown error.");
    assert_eq!(catcher_error(500, Some("Oops".into())).display_message, "Oops");
}

#[test]
fn decimals() {
    assert_eq!(decimal_text(0), "0");
    assert_eq!(decimal_text(7), "7");
    assert_eq!(decimal_text(10), "10");
    assert_eq!(decimal_text(42), "42");
    assert_eq!(decimal_text(u64::MAX), u64::MAX.to_string());
    assert_eq!(signed_decimal_text(0), "0");
    assert_eq!(signed_decimal_text(-1), "-1");
    assert_eq!(signed_decimal_text(i64::MAX), i64::MAX.to_string());
    assert_eq!(signed_decimal_text(i64::MIN), i64::MIN.to_string());
}
