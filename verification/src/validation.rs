//! The rules a username and a password must meet.

use vstd::prelude::*;

use crate::error::{error_message, error_status, Error, HttpError};
use crate::http::STATUS_BAD_REQUEST;
use crate::model::Credentials;
use unicode_segmentation::UnicodeSegmentation;

verus! {

/// The fewest grapheme clusters a username may have.
pub const USERNAME_MIN: usize = 1;

/// The most grapheme clusters a username may have.
pub const USERNAME_MAX: usize = 42;

/// The fewest grapheme clusters a password may have.
pub const PASSWORD_MIN: usize = 8;

/// The number of extended grapheme clusters (user-perceived characters) in `s`,
/// as Unicode's segmentation rules count them.
pub uninterp spec fn grapheme_count(s: Seq<char>) -> usize;

/// Trusted: `unicode_segmentation::UnicodeSegmentation::graphemes(s, true).count()`.
/// Claims that the count depends on the text alone, that only the empty text
/// has no cluster, and that there are never more clusters than characters
/// (each cluster is a non-empty run of characters).  The segmentation rules
/// themselves are not restated.
#[verifier::external_body]
pub(crate) fn count_graphemes(s: &str) -> (r: usize)
    ensures
        r == grapheme_count(s@),
        (r == 0) == (s@.len() == 0),
        r <= s@.len(),
{
    s.graphemes(true).count()
}

/// An ASCII letter, as the class `[A-Za-z]` matches it.
pub open spec fn is_ascii_letter(c: char) -> bool {
    ('a' <= c && c <= 'z') || ('A' <= c && c <= 'Z')
}

/// An ASCII letter or digit, as the class `[0-9A-Za-z]` matches it.
pub open spec fn is_ascii_alphanumeric(c: char) -> bool {
    is_ascii_letter(c) || ('0' <= c && c <= '9')
}

/// `s` splits at `k` into a non-empty run of letters `s[..k]` and a run of
/// letters and digits `s[k..]`.
pub open spec fn letters_then_alphanumerics(s: Seq<char>, k: int) -> bool {
    &&& 1 <= k <= s.len()
    &&& forall|i: int| 0 <= i < k ==> is_ascii_letter(#[trigger] s[i])
    &&& forall|i: int| k <= i < s.len() ==> is_ascii_alphanumeric(#[trigger] s[i])
}

/// `s` matches the whole of `^([A-Za-z]+)([0-9A-Za-z]*)$`: a non-empty run of
/// letters, then a run of letters and digits, up to the end.
pub open spec fn username_pattern(s: Seq<char>) -> bool {
    exists|k: int| #[trigger] letters_then_alphanumerics(s, k)
}

/// `s` starts with a letter and holds nothing but letters and digits.
pub open spec fn username_shape(s: Seq<char>) -> bool {
    &&& s.len() >= 1
    &&& is_ascii_letter(s[0])
    &&& forall|i: int| 0 <= i < s.len() ==> is_ascii_alphanumeric(#[trigger] s[i])
}

/// The username pattern says no more than this: a letter first, then letters
/// and digits only.
pub proof fn lemma_username_pattern_is_shape(s: Seq<char>)
    ensures
        username_pattern(s) == username_shape(s),
{
    if username_shape(s) {
        assert(letters_then_alphanumerics(s, 1));
    }
    if username_pattern(s) {
        let k = choose|k: int| #[trigger] letters_then_alphanumerics(s, k);
        assert(is_ascii_letter(s[0]));
        assert forall|i: int| 0 <= i < s.len() implies is_ascii_alphanumeric(#[trigger] s[i]) by {
            if i < k {
                assert(is_ascii_letter(s[i]));
            }
        }
    }
}

fn is_letter(c: char) -> (r: bool)
    ensures
        r == is_ascii_letter(c),
{
    ('a' <= c && c <= 'z') || ('A' <= c && c <= 'Z')
}

fn is_alphanumeric(c: char) -> (r: bool)
    ensures
        r == is_ascii_alphanumeric(c),
{
    is_letter(c) || ('0' <= c && c <= '9')
}

/// Whether `username` matches `^([A-Za-z]+)([0-9A-Za-z]*)$`.
pub fn matches_username_pattern(username: &str) -> (r: bool)
    ensures
        r == username_pattern(username@),
{
    proof {
        lemma_username_pattern_is_shape(username@);
    }
    let n = username.unicode_len();
    if n == 0 {
        return false;
    }
    if !is_letter(username.get_char(0)) {
        return false;
    }
    let mut i: usize = 1;
    while i < n
        invariant
            n == username@.len(),
            1 <= i <= n,
            is_ascii_letter(username@[0]),
            forall|j: int| 0 <= j < i ==> is_ascii_alphanumeric(#[trigger] username@[j]),
        decreases n - i,
    {
        if !is_alphanumeric(username.get_char(i)) {
            return false;
        }
        i = i + 1;
    }
    true
}

/// The verdict on a pair of credentials: the username must have between
/// `USERNAME_MIN` and `USERNAME_MAX` grapheme clusters, then the password at
/// least `PASSWORD_MIN`, then the username must match the username pattern;
/// the first rule broken gives the error.
pub open spec fn credentials_verdict(username: Seq<char>, password: Seq<char>) -> Result<(), Error> {
    let username_size = grapheme_count(username);
    if username_size < USERNAME_MIN || username_size > USERNAME_MAX {
        Err(Error::BadUsernameSize(USERNAME_MIN, USERNAME_MAX))
    } else if grapheme_count(password) < PASSWORD_MIN {
        Err(Error::BadPasswordSize(PASSWORD_MIN))
    } else if !username_pattern(username) {
        Err(Error::BadUsername)
    } else {
        Ok(())
    }
}

/// Every rule a pair of credentials can break is answered with `400 Bad Request`.
pub proof fn lemma_rejected_credentials_are_bad_requests(username: Seq<char>, password: Seq<char>)
    ensures
        credentials_verdict(username, password) matches Err(error) ==> error_status(error)
            == STATUS_BAD_REQUEST,
{
}

/// A username character allowed by the username rule: an ASCII letter or digit,
/// written out as the ranges `a..=z`, `A..=Z` and `0..=9`.
pub open spec fn in_username_alphabet(c: char) -> bool {
    ('a' <= c && c <= 'z') || ('A' <= c && c <= 'Z') || ('0' <= c && c <= '9')
}

/// A username matches `^([A-Za-z]+)([0-9A-Za-z]*)$` exactly when it is not
/// empty, starts with a letter in `a..=z` or `A..=Z`, and holds only letters
/// and digits in `a..=z`, `A..=Z`, `0..=9`; so, for one, no accepted username
/// holds a `.`.
pub proof fn lemma_username_pattern_alphabet(s: Seq<char>)
    ensures
        username_pattern(s) == (s.len() >= 1 && (('a' <= s[0] && s[0] <= 'z') || ('A' <= s[0]
            && s[0] <= 'Z')) && forall|i: int|
            0 <= i < s.len() ==> in_username_alphabet(#[trigger] s[i])),
        username_pattern(s) ==> !s.contains('.'),
{
    lemma_username_pattern_is_shape(s);
    if username_pattern(s) {
        assert forall|i: int| 0 <= i < s.len() implies in_username_alphabet(#[trigger] s[i]) by {
            assert(is_ascii_alphanumeric(s[i]));
        }
        if s.contains('.') {
            let j = choose|j: int| 0 <= j < s.len() && s[j] == '.';
            assert(in_username_alphabet(s[j]));
        }
    }
    if s.len() >= 1 && (('a' <= s[0] && s[0] <= 'z') || ('A' <= s[0] && s[0] <= 'Z')) && (forall|
        i: int,
    |
        0 <= i < s.len() ==> in_username_alphabet(#[trigger] s[i])) {
        assert forall|i: int| 0 <= i < s.len() implies is_ascii_alphanumeric(#[trigger] s[i]) by {
            assert(in_username_alphabet(s[i]));
        }
        assert(username_shape(s));
    }
}

/// Credentials whose username has between 1 and 42 grapheme clusters and
/// matches the username pattern, and whose password has at least 8 grapheme
/// clusters, are accepted, however long the password is.
pub proof fn lemma_good_credentials_are_accepted(username: Seq<char>, password: Seq<char>)
    requires
        1 <= grapheme_count(username) <= 42,
        username_pattern(username),
        grapheme_count(password) >= 8,
    ensures
        credentials_verdict(username, password) == Ok::<(), Error>(()),
{
}

/// Which error a pair of credentials gets, against the literal bounds: a
/// username-size error (naming the bounds 1 and 42) exactly when the username
/// has fewer than 1 or more than 42 grapheme clusters; otherwise a
/// password-size error (naming 8) exactly when the password has fewer than 8;
/// otherwise a username error exactly when the username does not match the
/// pattern; and no other outcome.
pub proof fn lemma_credentials_rejections(username: Seq<char>, password: Seq<char>)
    ensures
        (credentials_verdict(username, password) == Err::<(), Error>(
            Error::BadUsernameSize(1, 42),
        )) == (grapheme_count(username) < 1 || grapheme_count(username) > 42),
        (credentials_verdict(username, password) == Err::<(), Error>(Error::BadPasswordSize(8)))
            == (1 <= grapheme_count(username) <= 42 && grapheme_count(password) < 8),
        credentials_verdict(username, password) matches Err(Error::BadPasswordSize(_))
            ==> grapheme_count(password) < 8,
        (credentials_verdict(username, password) == Err::<(), Error>(Error::BadUsername)) == (1
            <= grapheme_count(username) <= 42 && grapheme_count(password) >= 8
            && !username_pattern(username)),
        credentials_verdict(username, password) is Ok || credentials_verdict(username, password)
            == Err::<(), Error>(Error::BadUsernameSize(1, 42)) || credentials_verdict(
            username,
            password,
        ) == Err::<(), Error>(Error::BadPasswordSize(8)) || credentials_verdict(
            username,
            password,
        ) == Err::<(), Error>(Error::BadUsername),
{
}

impl Credentials {
    /// Checks the credentials against the username and password rules.
    pub fn validate(&self) -> (r: Result<(), Error>)
        ensures
            r == credentials_verdict(self.username@, self.password@),
    {
        let size = count_graphemes(self.username.as_str());
        if size < USERNAME_MIN || size > USERNAME_MAX {
            return Err(Error::BadUsernameSize(USERNAME_MIN, USERNAME_MAX));
        }
        let size = count_graphemes(self.password.as_str());
        if size < PASSWORD_MIN {
            return Err(Error::BadPasswordSize(PASSWORD_MIN));
        }
        if !matches_username_pattern(self.username.as_str()) {
            return Err(Error::BadUsername);
        }
        Ok(())
    }
}

/// Turns a parsed request body into credentials or a failure.  A body that did
/// not parse keeps the parser's status and is reported as bad JSON with the
/// parser's message; credentials that break a rule fail with that rule's error
/// and its status; valid credentials pass through unchanged.
pub fn credentials_outcome(parsed: Result<Credentials, (u16, String)>) -> (r: Result<
    Credentials,
    (u16, HttpError),
>)
    ensures
        match parsed {
            Err((status, message)) => r matches Err((s, e)) && s == status && e.status
                == error_status(Error::BadJson(message)) && e.display_message@ == error_message(
                Error::BadJson(message),
            ),
            Ok(credentials) => match credentials_verdict(
                credentials.username@,
                credentials.password@,
            ) {
                Ok(()) => r == Ok::<Credentials, (u16, HttpError)>(credentials),
                Err(error) => r matches Err((s, e)) && s == error_status(error) && e.status
                    == error_status(error) && e.display_message@ == error_message(error),
            },
        },
{
    match parsed {
        Err((status, message)) => Err((status, HttpError::from_json_error(message))),
        Ok(credentials) => match credentials.validate() {
            Ok(()) => Ok(credentials),
            Err(error) => Err(crate::error::to_failure(error)),
        },
    }
}

} // verus!
