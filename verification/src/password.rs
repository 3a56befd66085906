//! One-way salted password hashing with a constant-time-equivalent check.
//!
//! A digest is a self-contained string carrying the algorithm parameters and
//! the salt beside the hash, so checking a password needs nothing but the
//! digest itself. Whether a password and a digest belong together is named by
//! [`digest_matches`]; producing a digest promises that the match holds, and
//! checking one returns exactly that predicate.

use vstd::prelude::*;
use vstd::string::StringSliceAdditionalSpecFns;

use crate::errors::AuthError;

verus! {

/// Longest password, in UTF-8 bytes, that hashing accepts; beyond it the
/// algorithm would silently truncate, so such input is rejected instead.
pub const MAX_PASSWORD_BYTES: usize = 72;

/// Whether `password` is a password that `digest` was derived from. The
/// hashing backend computes this deterministically from the two arguments
/// alone; a malformed digest matches nothing.
pub uninterp spec fn digest_matches(password: Seq<char>, digest: Seq<char>) -> bool;

/// Relies on bcrypt::hash with bcrypt::verify: a digest freshly derived from
/// a password is reported by the same backend as matching that password.
/// Fails only if the cost is rejected or random salt bytes cannot be drawn.
#[verifier::external_body]
fn bcrypt_hash(password: &str) -> (r: Option<String>)
    ensures
        r matches Some(d) ==> digest_matches(password@, d@),
{
    bcrypt::hash(password, bcrypt::DEFAULT_COST).ok()
}

/// Relies on bcrypt::verify: recomputes the hash under the salt and cost
/// carried in the digest and compares in constant time, a deterministic
/// function of the two arguments; a malformed digest is reported as no match
/// rather than as an error.
#[verifier::external_body]
fn bcrypt_verify(password: &str, digest: &str) -> (r: bool)
    ensures
        r == digest_matches(password@, digest@),
{
    bcrypt::verify(password, digest).unwrap_or(false)
}

/// Derives a fresh salted digest for `password`.
///
/// Oversize input is an input-validation failure, never a silent truncation;
/// any failure of the hashing primitive itself surfaces the same way.
pub fn hash_password(password: &str) -> (r: Result<String, AuthError>)
    ensures
        password.spec_bytes().len() > MAX_PASSWORD_BYTES ==> r == Err::<String, AuthError>(
            AuthError::Internal,
        ),
        r matches Ok(d) ==> password.spec_bytes().len() <= MAX_PASSWORD_BYTES
            && digest_matches(password@, d@),
        r matches Err(e) ==> e == AuthError::Internal,
{
    if password.as_bytes().len() > MAX_PASSWORD_BYTES {
        return Err(AuthError::Internal);
    }
    match bcrypt_hash(password) {
        Some(d) => Ok(d),
        None => Err(AuthError::Internal),
    }
}

/// Reports whether `password` is a password that `digest` was derived from;
/// false, never an error, for a malformed digest.
pub fn verify_password(password: &str, digest: &str) -> (r: bool)
    ensures
        r == digest_matches(password@, digest@),
{
    bcrypt_verify(password, digest)
}

} // verus!
