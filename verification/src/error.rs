//! The service's error model: what can go wrong, how each error reads, which
//! HTTP status answers it, and how database failures are classified.

use vstd::prelude::*;

use crate::http::{
    canonical_reason, status_reason, STATUS_BAD_REQUEST, STATUS_INTERNAL_SERVER_ERROR,
    STATUS_UNAUTHORIZED,
};
use crate::text::{decimal, decimal_text};

verus! {

/// What the service learns of a failed database call: the SQLSTATE code when
/// the database itself reported the failure, and a description of it.
#[derive(Debug, Clone)]
pub struct DbFailure {
    pub code: Option<String>,
    pub detail: String,
}

/// Everything that can go wrong while serving a request.
#[derive(Debug, Clone)]
pub enum Error {
    /// The username is already registered (SQLSTATE `23505`).
    Duplicated(DbFailure),
    /// The username does not fit its column (SQLSTATE `22001`).
    TooBig(DbFailure),
    /// No user has these credentials.
    BadCredentials,
    /// The token does not belong to a logged-in user.
    BadToken,
    /// The request body is not valid JSON for the expected shape.
    BadJson(String),
    /// The username is not a letter followed by letters and digits.
    BadUsername,
    /// The username's length is outside the given bounds.
    BadUsernameSize(usize, usize),
    /// The password is shorter than the given minimum.
    BadPasswordSize(usize),
    /// Any other failure, with a description for the logs.
    Other(String),
}

/// SQLSTATE `unique_violation`.
pub open spec fn unique_violation_code() -> Seq<char> {
    seq!['2', '3', '5', '0', '5']
}

/// SQLSTATE `string_data_right_truncation`.
pub open spec fn string_truncation_code() -> Seq<char> {
    seq!['2', '2', '0', '0', '1']
}

/// How a database failure is reported to the rest of the service.
pub open spec fn classify_db_failure(failure: DbFailure) -> Error {
    if failure.code matches Some(code) && code@ == unique_violation_code() {
        Error::Duplicated(failure)
    } else if failure.code matches Some(code) && code@ == string_truncation_code() {
        Error::TooBig(failure)
    } else {
        Error::Other(failure.detail)
    }
}

/// The HTTP status that answers an error.
pub open spec fn error_status(error: Error) -> u16 {
    match error {
        Error::Duplicated(_) => STATUS_BAD_REQUEST,
        Error::TooBig(_) => STATUS_BAD_REQUEST,
        Error::BadUsername => STATUS_BAD_REQUEST,
        Error::BadUsernameSize(_, _) => STATUS_BAD_REQUEST,
        Error::BadPasswordSize(_) => STATUS_BAD_REQUEST,
        Error::BadJson(_) => STATUS_BAD_REQUEST,
        Error::BadCredentials => STATUS_UNAUTHORIZED,
        Error::BadToken => STATUS_UNAUTHORIZED,
        Error::Other(_) => STATUS_INTERNAL_SERVER_ERROR,
    }
}

/// The message shown to the client for an error.
pub open spec fn error_message(error: Error) -> Seq<char> {
    match error {
        Error::Duplicated(_) => "Duplicated username."@,
        Error::TooBig(_) => "Username is too big."@,
        Error::BadCredentials => "Username and/or password mismatch."@,
        Error::BadToken => "Token does not represent an authenticated user."@,
        Error::BadJson(details) => "The JSON input is invalid. Details: "@ + details@,
        Error::BadUsername => "Username must be alphanumeric and it must start with a letter."@,
        Error::BadUsernameSize(min, max) => "Username must be between "@ + decimal(min as nat)
            + " and "@ + decimal(max as nat) + " characters."@,
        Error::BadPasswordSize(min) => "Password must contain at least "@ + decimal(min as nat)
            + " characters."@,
        Error::Other(_) => "Sorry, we failed."@,
    }
}

/// Every error is answered with `400 Bad Request`, `401 Unauthorized` or
/// `500 Internal Server Error`, and only an internal failure gets the last.
pub proof fn lemma_error_status_classes(error: Error)
    ensures
        error_status(error) == STATUS_BAD_REQUEST || error_status(error) == STATUS_UNAUTHORIZED
            || error_status(error) == STATUS_INTERNAL_SERVER_ERROR,
        (error_status(error) == STATUS_INTERNAL_SERVER_ERROR) == (error is Other),
{
}

/// The status of each error, by variant and whatever its payload: bad input
/// (duplicated or too-long username, bad JSON, a broken username or password
/// rule) is `400`, bad credentials or a bad token is `401`, any other failure
/// is `500`.
pub proof fn lemma_status_by_variant(
    failure: DbFailure,
    text: String,
    min: usize,
    max: usize,
)
    ensures
        error_status(Error::Duplicated(failure)) == 400,
        error_status(Error::TooBig(failure)) == 400,
        error_status(Error::BadJson(text)) == 400,
        error_status(Error::BadUsername) == 400,
        error_status(Error::BadUsernameSize(min, max)) == 400,
        error_status(Error::BadPasswordSize(min)) == 400,
        error_status(Error::BadCredentials) == 401,
        error_status(Error::BadToken) == 401,
        error_status(Error::Other(text)) == 500,
{
}

/// How a failed database call is classified, by its SQLSTATE: the username is
/// taken exactly when the code is `23505`, too long exactly when it is
/// `22001`, and every other failure (another code, or none) is internal and
/// keeps its description; a taken or too-long username keeps the failure.
pub proof fn lemma_db_failure_codes(failure: DbFailure)
    ensures
        (classify_db_failure(failure) is Duplicated) == (failure.code matches Some(code) && code@
            == "23505"@),
        (classify_db_failure(failure) is TooBig) == (failure.code matches Some(code) && code@
            == "22001"@),
        (classify_db_failure(failure) is Other) == !(failure.code matches Some(code) && (code@
            == "23505"@ || code@ == "22001"@)),
        classify_db_failure(failure) matches Error::Duplicated(kept) ==> kept == failure,
        classify_db_failure(failure) matches Error::TooBig(kept) ==> kept == failure,
        classify_db_failure(failure) matches Error::Other(detail) ==> detail == failure.detail,
{
    reveal_strlit("23505");
    reveal_strlit("22001");
    assert("23505"@ =~= unique_violation_code());
    assert("22001"@ =~= string_truncation_code());
}

fn is_code(code: &String, expected: &str) -> (r: bool)
    ensures
        r == (code@ == expected@),
{
    *code == String::from_str(expected)
}

impl Error {
    /// Classifies a failed database call: a unique violation means the username
    /// is taken, a right truncation means it is too long, anything else is an
    /// internal failure.
    pub fn from_db(failure: DbFailure) -> (r: Error)
        ensures
            r == classify_db_failure(failure),
    {
        proof {
            reveal_strlit("23505");
            reveal_strlit("22001");
        }
        let (duplicated, too_big) = match &failure.code {
            Some(code) => {
                let d = is_code(code, "23505");
                let t = is_code(code, "22001");
                assert("23505"@ =~= unique_violation_code());
                assert("22001"@ =~= string_truncation_code());
                (d, t)
            },
            None => (false, false),
        };
        if duplicated {
            Error::Duplicated(failure)
        } else if too_big {
            Error::TooBig(failure)
        } else {
            Error::Other(failure.detail)
        }
    }

    /// The HTTP status that answers this error.
    pub fn status(&self) -> (r: u16)
        ensures
            r == error_status(*self),
    {
        match self {
            Error::Duplicated(_) | Error::TooBig(_) | Error::BadUsername
            | Error::BadUsernameSize(_, _) | Error::BadPasswordSize(_)
            | Error::BadJson(_) => STATUS_BAD_REQUEST,
            Error::BadCredentials | Error::BadToken => STATUS_UNAUTHORIZED,
            Error::Other(_) => STATUS_INTERNAL_SERVER_ERROR,
        }
    }

    /// The message shown to the client for this error.
    pub fn message(&self) -> (r: String)
        ensures
            r@ == error_message(*self),
    {
        match self {
            Error::Duplicated(_) => String::from_str("Duplicated username."),
            Error::TooBig(_) => String::from_str("Username is too big."),
            Error::BadCredentials => String::from_str("Username and/or password mismatch."),
            Error::BadToken => String::from_str("Token does not represent an authenticated user."),
            Error::BadJson(details) => {
                let mut r = String::from_str("The JSON input is invalid. Details: ");
                r.append(details.as_str());
                r
            },
            Error::BadUsername => String::from_str(
                "Username must be alphanumeric and it must start with a letter.",
            ),
            Error::BadUsernameSize(min, max) => {
                let mut r = String::from_str("Username must be between ");
                r.append(decimal_text(*min as u64).as_str());
                r.append(" and ");
                r.append(decimal_text(*max as u64).as_str());
                r.append(" characters.");
                r
            },
            Error::BadPasswordSize(min) => {
                let mut r = String::from_str("Password must contain at least ");
                r.append(decimal_text(*min as u64).as_str());
                r.append(" characters.");
                r
            },
            Error::Other(_) => String::from_str("Sorry, we failed."),
        }
    }
}

/// An error as it is sent to the client: the HTTP status and the message.
#[derive(Debug, Clone)]
pub struct HttpError {
    pub status: u16,
    pub display_message: String,
}

impl HttpError {
    /// An error answered with `status` and shown as `display_message`.
    pub fn new(status: u16, display_message: String) -> (r: HttpError)
        ensures
            r.status == status,
            r.display_message@ == display_message@,
    {
        HttpError { status, display_message }
    }

    /// The client-facing form of an error: its status and its message.
    pub fn from_error(reason: Error) -> (r: HttpError)
        ensures
            r.status == error_status(reason),
            r.display_message@ == error_message(reason),
    {
        let status = reason.status();
        let display_message = reason.message();
        HttpError { status, display_message }
    }

    /// The client-facing form of a request body that did not parse as JSON.
    pub fn from_json_error(message: String) -> (r: HttpError)
        ensures
            r.status == STATUS_BAD_REQUEST,
            r.display_message@ == error_message(Error::BadJson(message)),
    {
        HttpError::from_error(Error::BadJson(message))
    }
}

/// A failed request guard: the status to answer and the error to send.
pub fn to_failure(error: Error) -> (r: (u16, HttpError))
    ensures
        r.0 == error_status(error),
        r.1.status == error_status(error),
        r.1.display_message@ == error_message(error),
{
    let http = HttpError::from_error(error);
    (http.status, http)
}

/// The error sent for a failed request that no route answered, given the
/// reason phrase known for its status.
pub fn catcher_error(status: u16, reason: Option<String>) -> (r: HttpError)
    ensures
        r.status == status,
        r.display_message@ == match reason {
            Some(text) => text@,
            None => "Unknown error."@,
        },
{
    let display_message = match reason {
        Some(text) => text,
        None => String::from_str("Unknown error."),
    };
    HttpError::new(status, display_message)
}

/// The error sent for a failed request that no route answered: its status,
/// shown as the status's canonical reason phrase, or "Unknown error." for a
/// code without one.
pub fn default_catcher(status: u16) -> (r: HttpError)
    ensures
        r.status == status,
        r.display_message@ == match canonical_reason(status) {
            Some(text) => text,
            None => "Unknown error."@,
        },
{
    let reason = status_reason(status);
    catcher_error(status, reason)
}

} // verus!
