//! The credential repository: what a credential lookup in the database means.

use vstd::prelude::*;

verus! {

/// The credential repository backed by PostgreSQL.
pub struct PostgresCredentialRepo;

/// Whether credentials are valid, given what the lookup found: the password
/// comparison for the username's row, or nothing when no row has that
/// username (which counts as invalid).
pub fn credentials_match(found: Option<bool>) -> (r: bool)
    ensures
        r == (found == Some(true)),
{
    match found {
        Some(matches) => matches,
        None => false,
    }
}

} // verus!
