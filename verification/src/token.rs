//! Tokens: how they are minted, and where the token store keeps the user a
//! token stands for.

use vstd::prelude::*;

use crate::config::redis_client::client_clone;
use redis::Client;

verus! {

/// A lowercase hexadecimal digit.
pub open spec fn is_lower_hex_digit(c: char) -> bool {
    ('0' <= c && c <= '9') || ('a' <= c && c <= 'f')
}

/// `s` is the hyphenated lowercase text of a random (version 4, RFC 4122
/// variant) UUID: 36 characters, hyphens at 8, 13, 18 and 23, lowercase hex
/// digits elsewhere, the version digit `4` at 14 and a variant digit `8`,
/// `9`, `a` or `b` at 19.
pub open spec fn is_v4_uuid_text(s: Seq<char>) -> bool {
    &&& s.len() == 36
    &&& forall|i: int|
        0 <= i < 36 ==> if i == 8 || i == 13 || i == 18 || i == 23 {
            #[trigger] s[i] == '-'
        } else {
            is_lower_hex_digit(s[i])
        }
    &&& s[14] == '4'
    &&& (s[19] == '8' || s[19] == '9' || s[19] == 'a' || s[19] == 'b')
}

/// Trusted: `uuid::Uuid::new_v4().to_string()`.
/// Claims only the shape of the text, which holds of every random outcome:
/// the crate masks in the version and variant bits and prints the hyphenated
/// lowercase form.  Which UUID comes out is left open.
#[verifier::external_body]
pub(crate) fn new_v4_uuid_text() -> (r: String)
    ensures
        is_v4_uuid_text(r@),
{
    uuid::Uuid::new_v4().to_string()
}

/// The prefix of every token record's key in the token store.
pub open spec fn token_key_prefix() -> Seq<char> {
    seq!['t', 'o', 'k', 'e', 'n', ':']
}

/// The key of the record that holds the user a token stands for.
pub open spec fn token_key(token: Seq<char>) -> Seq<char> {
    token_key_prefix() + token
}

/// Distinct tokens have distinct keys.
pub proof fn lemma_token_key_injective(a: Seq<char>, b: Seq<char>)
    ensures
        token_key(a) == token_key(b) ==> a == b,
{
    if token_key(a) == token_key(b) {
        let n = token_key_prefix().len() as int;
        assert(token_key(a).skip(n) =~= a);
        assert(token_key(b).skip(n) =~= b);
    }
}

/// The user recorded for `token` in a token store with contents `store`
/// (key to value), if any.
pub open spec fn stored_username(store: Map<Seq<char>, Seq<char>>, token: Seq<char>) -> Option<
    Seq<char>,
> {
    if store.contains_key(token_key(token)) {
        Some(store[token_key(token)])
    } else {
        None
    }
}

/// Reading a token back after saving it gives the user it was saved with.
pub proof fn lemma_read_after_save(
    store: Map<Seq<char>, Seq<char>>,
    token: Seq<char>,
    username: Seq<char>,
)
    ensures
        stored_username(store.insert(token_key(token), username), token) == Some(username),
{
}

/// Saving a token leaves what every other token reads unchanged.
pub proof fn lemma_save_keeps_other_tokens(
    store: Map<Seq<char>, Seq<char>>,
    token: Seq<char>,
    username: Seq<char>,
    other: Seq<char>,
)
    requires
        other != token,
    ensures
        stored_username(store.insert(token_key(token), username), other) == stored_username(
            store,
            other,
        ),
{
    lemma_token_key_injective(token, other);
}

/// The token repository backed by Redis.
pub struct RedisTokenRepo {
    client: Client,
}

impl RedisTokenRepo {
    /// The Redis client the repository talks through.
    pub closed spec fn connection(&self) -> Client {
        self.client
    }

    /// A repository that talks through a copy of `client`.
    pub fn new(client: &Client) -> (r: Self)
        ensures
            r.connection() == *client,
    {
        Self { client: client_clone(client) }
    }

    /// The Redis client the repository talks through.
    pub fn client(&self) -> (r: &Client)
        ensures
            *r == self.connection(),
    {
        &self.client
    }

    /// The key under which the store keeps the user of `token`: `token:` and
    /// the token.
    pub fn token_key(token: &str) -> (r: String)
        ensures
            r@ == token_key(token@),
    {
        proof {
            reveal_strlit("token:");
            assert("token:"@ =~= token_key_prefix());
        }
        let mut key = String::from_str("token:");
        key.append(token);
        key
    }
}

} // verus!
