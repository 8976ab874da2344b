//! The identifier generator: fixed-length random tokens drawn from a
//! URL-safe alphabet.
//!
//! An id serves as the public handle of a paste. Uniqueness is probabilistic,
//! not enforced: no collision check is performed here or by the callers, so
//! the store states an explicit last-write-wins policy for the (unlikely)
//! case of a collision.

use vstd::prelude::*;

verus! {

/// The configured id length of the service.
pub const ID_LENGTH: usize = 7;

/// Holds exactly for the characters of the URL-safe alphabet `A-Za-z0-9_-`.
pub open spec fn is_url_safe_char(c: char) -> bool {
    ('a' <= c && c <= 'z') || ('A' <= c && c <= 'Z') || ('0' <= c && c <= '9') || c == '_' || c
        == '-'
}

/// An id is well shaped when every one of its characters is URL-safe.
pub open spec fn is_url_safe(s: Seq<char>) -> bool {
    forall|i: int| 0 <= i < s.len() ==> is_url_safe_char(#[trigger] s[i])
}

/// Relies on `nanoid::format` with nanoid's URL-safe alphabet
/// (`nanoid::alphabet::SAFE`, the 64 characters `A-Za-z0-9_-`) and nanoid's
/// default cryptographically strong random source: the returned token holds
/// exactly `len` characters, each drawn from that alphabet. A failure of the
/// operating system's random source aborts the request instead of degrading
/// to a weaker generator.
#[verifier::external_body]
fn random_token(len: usize) -> (r: String)
    ensures
        r@.len() == len as int,
        is_url_safe(r@),
{
    nanoid::format(nanoid::rngs::default, &nanoid::alphabet::SAFE, len)
}

/// A freshly generated paste identifier: an owned string of URL-safe
/// characters with the length the caller asked for.
pub struct PasteId(pub String);

impl PasteId {
    /// Draws `size` independent characters uniformly from the URL-safe
    /// alphabet. No uniqueness check is performed.
    pub fn new(size: usize) -> (r: PasteId)
        ensures
            r.0@.len() == size as int,
            is_url_safe(r.0@),
    {
        PasteId(random_token(size))
    }

    /// The string form of the id, borrowed.
    pub fn as_str(&self) -> (r: &str)
        ensures
            r@ == self.0@,
    {
        self.0.as_str()
    }

    /// The string form of the id, owned.
    pub fn into_string(self) -> (r: String)
        ensures
            r@ == self.0@,
    {
        self.0
    }
}

} // verus!
