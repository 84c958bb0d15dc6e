//! HTTP status codes used by the service, and the canonical reason phrases
//! that the web framework knows for each code.

use vstd::prelude::*;

verus! {

/// `400 Bad Request`.
pub const STATUS_BAD_REQUEST: u16 = 400;

/// `401 Unauthorized`.
pub const STATUS_UNAUTHORIZED: u16 = 401;

/// `500 Internal Server Error`.
pub const STATUS_INTERNAL_SERVER_ERROR: u16 = 500;

/// The canonical reason phrase of status `code`, as the web framework's status
/// table gives it (`None` for a code the table does not know).
pub uninterp spec fn canonical_reason(code: u16) -> Option<Seq<char>>;

/// Trusted: `rocket::http::Status::new(code).reason()`.
/// Claims that the phrase returned is the one the framework's table holds for
/// `code` (so it depends on `code` alone), and `None` exactly when the table has
/// no entry; the table itself is not restated here.
#[verifier::external_body]
pub(crate) fn status_reason(code: u16) -> (r: Option<String>)
    ensures
        match r {
            Some(text) => canonical_reason(code) == Some(text@),
            None => canonical_reason(code) is None,
        },
{
    rocket::http::Status::new(code).reason().map(|text| text.to_string())
}

} // verus!
