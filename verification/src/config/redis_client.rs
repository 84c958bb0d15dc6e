//! A client for the token store, made from its URL.

use vstd::prelude::*;

use redis::Client;

verus! {

#[verifier::external_type_specification]
#[verifier::external_body]
pub struct ExClient(redis::Client);

/// Whether the Redis client accepts `url` as the address of a server
/// (`redis://`, `rediss://`, `unix://` or `redis+unix://` with a well-formed
/// rest).
pub uninterp spec fn redis_url_accepted(url: Seq<char>) -> bool;

/// The client that the Redis client library makes of `url`: the connection
/// settings it parses out of the URL (address, database, user and password).
pub uninterp spec fn client_for_url(url: Seq<char>) -> Client;

/// Trusted: `redis::Client::open(url)`, which only parses the URL and does not
/// connect.  Claims that it succeeds exactly for the URLs the client accepts,
/// a property of the text alone, and that the client made is a function of the
/// URL alone (its connection settings are parsed from the URL and nothing
/// else).  The parsing itself is not restated.
#[verifier::external_body]
fn client_open(url: &str) -> (r: Option<Client>)
    ensures
        r is Some == redis_url_accepted(url@),
        r matches Some(client) ==> client == client_for_url(url@),
{
    Client::open(url).ok()
}

/// Trusted: `<redis::Client as Clone>::clone`, a derived clone of the
/// connection settings.  Claims that the copy equals the client it was made from.
#[verifier::external_body]
pub(crate) fn client_clone(client: &Client) -> (r: Client)
    ensures
        r == *client,
{
    client.clone()
}

/// A client for the Redis server at `redis_url`, which must be a URL the client
/// accepts: the client made of that URL.
pub fn open(redis_url: &str) -> (r: Client)
    requires
        redis_url_accepted(redis_url@),
    ensures
        r == client_for_url(redis_url@),
{
    let client = client_open(redis_url);
    client.unwrap()
}

/// A client for the Redis server at `redis_url`, or `None` when the URL is not
/// one the client accepts.
pub fn try_open(redis_url: &str) -> (r: Option<Client>)
    ensures
        r is Some == redis_url_accepted(redis_url@),
        r matches Some(client) ==> client == client_for_url(redis_url@),
{
    match client_open(redis_url) {
        Some(_) => Some(open(redis_url)),
        None => None,
    }
}

} // verus!
