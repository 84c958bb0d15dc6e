//! The values that cross the service's HTTP boundary.

use vstd::prelude::*;

verus! {

/// An opaque token handed out at login.
pub type Token = String;

/// A username and password, as submitted to register or log in.
#[derive(PartialEq, Eq, Debug, Clone)]
pub struct Credentials {
    pub username: String,
    pub password: String,
}

/// The answer to a successful login.
#[derive(PartialEq, Eq, Debug, Clone)]
pub struct LoginOk {
    pub token: Token,
}

/// The answer to a successful authentication.
#[derive(PartialEq, Eq, Debug, Clone)]
pub struct AuthOk {
    pub username: String,
}

} // verus!
