//! The password hasher: one-way salted hashing and verification.
//!
//! The hash string is opaque and self-describing; the library never looks
//! inside it. What `verify` decides on a (password, hash) pair is named by
//! `verify_outcome`, and the one fact taken on trust about `hash` is that
//! verifying a fresh hash against its own password succeeds.

use vstd::prelude::*;

verus! {

/// What verifying `password` against `hash` yields: `None` when the stored
/// hash is malformed, otherwise whether the password matches. The outcome is
/// a function of the two strings alone.
pub uninterp spec fn verify_outcome(password: Seq<char>, hash: Seq<char>) -> Option<bool>;

/// The password matches the stored hash.
pub open spec fn password_matches(password: Seq<char>, hash: Seq<char>) -> bool {
    verify_outcome(password, hash) == Some(true)
}

/// Relies on bcrypt::hash: an adaptive salted hash with a random per-call
/// salt, so nothing is said of the string itself; bcrypt::verify of the
/// result against the same password parses it and reports a match.
#[verifier::external_body]
pub fn hash_password(password: &str) -> (r: Result<String, ()>)
    ensures
        r matches Ok(h) ==> password_matches(password@, h@),
{
    bcrypt::hash(password, bcrypt::DEFAULT_COST).map_err(|_| ())
}

/// Relies on bcrypt::verify: re-derives the hash with the salt and cost
/// taken from the stored string and compares in constant time; errors only
/// on a malformed stored hash. Deterministic in its two arguments.
#[verifier::external_body]
pub fn verify_password(password: &str, hash: &str) -> (r: Result<bool, ()>)
    ensures
        r matches Ok(b) ==> verify_outcome(password@, hash@) == Some(b),
        r is Err ==> verify_outcome(password@, hash@) is None,
{
    bcrypt::verify(password, hash).map_err(|_| ())
}

} // verus!
