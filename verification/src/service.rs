//! The decisions of the register, login and authenticate flows.
//!
//! Each flow talks to the database or to the token store between its steps;
//! the functions here take what came back and say what happens next.

use vstd::prelude::*;

use crate::error::Error;
use crate::model::{Credentials, LoginOk, Token};
use crate::text::{signed_decimal, signed_decimal_text};
use crate::token::{
    is_v4_uuid_text, lemma_read_after_save, new_v4_uuid_text, stored_username, token_key,
    RedisTokenRepo,
};

verus! {

/// What to do with the registration's database transaction.
#[derive(PartialEq, Eq, Debug, Clone, Copy)]
pub enum TxAction {
    Commit,
    Rollback,
}

/// What follows the insertion of new credentials: the fate of the transaction
/// and the registration's outcome.
#[derive(Debug)]
pub struct RegisterStep {
    pub tx: TxAction,
    pub outcome: Result<bool, Error>,
}

/// Decides a registration once the credentials were inserted (the number of
/// rows written) or the insertion failed.  A successful insertion is committed
/// and the registration succeeded when exactly one user was written; a failed
/// one is rolled back and its error is the outcome.
pub fn register_step(inserted: Result<u64, Error>) -> (r: RegisterStep)
    ensures
        match inserted {
            Ok(rows) => r.tx == TxAction::Commit && r.outcome == Ok::<bool, Error>(rows == 1),
            Err(error) => r.tx == TxAction::Rollback && r.outcome == Err::<bool, Error>(error),
        },
{
    match inserted {
        Ok(rows) => RegisterStep { tx: TxAction::Commit, outcome: Ok(rows == 1) },
        Err(error) => RegisterStep { tx: TxAction::Rollback, outcome: Err(error) },
    }
}

/// Where the profile of the user with id `new_id` lives.
pub open spec fn profile_location(new_id: int) -> Seq<char> {
    seq!['/', 'p', 'r', 'o', 'f', 'i', 'l', 'e', '/'] + signed_decimal(new_id)
}

/// The answer to a registration: the location of the new profile when exactly
/// one user was written, the registration's error when it failed, and an
/// internal error when the database wrote some other number of rows.
pub fn registration_response(outcome: Result<bool, Error>, new_id: i64) -> (r: Result<String, Error>)
    ensures
        match outcome {
            Ok(true) => r matches Ok(location) && location@ == profile_location(new_id as int),
            Ok(false) => r matches Err(Error::Other(detail)) && detail@
                == "registration did not write exactly one user"@,
            Err(error) => r == Err::<String, Error>(error),
        },
{
    match outcome {
        Ok(true) => {
            proof {
                reveal_strlit("/profile/");
                assert("/profile/"@ =~= seq!['/', 'p', 'r', 'o', 'f', 'i', 'l', 'e', '/']);
            }
            let mut location = String::from_str("/profile/");
            location.append(signed_decimal_text(new_id).as_str());
            Ok(location)
        },
        Ok(false) => Err(Error::Other(String::from_str("registration did not write exactly one user"))),
        Err(error) => Err(error),
    }
}

/// What follows the credential check of a login.
#[derive(Debug, Clone)]
pub enum LoginStep {
    /// Save `username` under `key` in the token store, then hand out `token`.
    Issue { token: Token, key: String, username: String },
    /// Refuse the login; nothing is saved.
    Deny,
}

/// `step` hands out a fresh token to the user of `credentials`, saving the
/// user's name under the token's key.
pub open spec fn issues_for(step: LoginStep, credentials: Credentials) -> bool {
    &&& step matches LoginStep::Issue { token, key, username }
    &&& is_v4_uuid_text(token@)
    &&& key@ == token_key(token@)
    &&& username@ == credentials.username@
}

/// Decides a login once the credentials were checked: only credentials found
/// valid earn a fresh token, recorded for the user's name; a failed check
/// counts as invalid credentials.
pub fn login_step(checked: Result<bool, Error>, credentials: &Credentials) -> (r: LoginStep)
    ensures
        checked matches Ok(true) ==> issues_for(r, *credentials),
        !(checked matches Ok(true)) ==> r is Deny,
{
    let valid = match checked {
        Ok(valid) => valid,
        Err(_) => false,
    };
    if valid {
        let token = new_v4_uuid_text();
        let key = RedisTokenRepo::token_key(token.as_str());
        let username = credentials.username.clone();
        LoginStep::Issue { token, key, username }
    } else {
        LoginStep::Deny
    }
}

/// The login's result once its step was carried out: the token handed out, or
/// none.
pub fn login_result(step: LoginStep) -> (r: Option<Token>)
    ensures
        match step {
            LoginStep::Issue { token, .. } => r == Some(token),
            LoginStep::Deny => r is None,
        },
{
    match step {
        LoginStep::Issue { token, .. } => Some(token),
        LoginStep::Deny => None,
    }
}

/// The answer to a login: the token, or a refusal for bad credentials.
pub fn login_response(token: Option<Token>) -> (r: Result<LoginOk, Error>)
    ensures
        match token {
            Some(t) => r == Ok::<LoginOk, Error>(LoginOk { token: t }),
            None => r matches Err(Error::BadCredentials),
        },
{
    match token {
        Some(token) => Ok(LoginOk { token }),
        None => Err(Error::BadCredentials),
    }
}

/// Decides an authentication once the token's record was read: the user it
/// holds, or a bad-token error when there is none.
pub fn authenticate_result(stored: Option<String>) -> (r: Result<String, Error>)
    ensures
        match stored {
            Some(username) => r == Ok::<String, Error>(username),
            None => r matches Err(Error::BadToken),
        },
{
    match stored {
        Some(username) => Ok(username),
        None => Err(Error::BadToken),
    }
}

/// A token issued at login, once its record is saved as the login step says,
/// reads back as the user who logged in.
pub proof fn lemma_issued_token_authenticates(
    step: LoginStep,
    credentials: Credentials,
    store: Map<Seq<char>, Seq<char>>,
)
    requires
        issues_for(step, credentials),
    ensures
        step matches LoginStep::Issue { token, key, username } ==> stored_username(
            store.insert(key@, username@),
            token@,
        ) == Some(credentials.username@),
{
    if let LoginStep::Issue { token, key, username } = step {
        lemma_read_after_save(store, token@, username@);
    }
}

} // verus!
