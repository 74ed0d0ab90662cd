//! Salted, adaptive-cost password hashing and verification, built on the
//! bcrypt crate. Hashing draws a random salt, so two hashes of one password
//! differ; verification recomputes the digest from the salt stored inside
//! the hash and is a pure function of the password and the stored digest.

use vstd::prelude::*;

use crate::errors::AuthError;

verus! {

/// What `bcrypt::verify(password, hashed)` returns for a given pair:
/// `Some(b)` when the stored digest is well formed and the comparison
/// yields `b`, `None` when the digest is malformed. The result depends on
/// the two arguments alone: the salt is read back out of the digest.
pub uninterp spec fn bcrypt_check(password: Seq<char>, hashed: Seq<char>) -> Option<bool>;

/// The outcome of verifying `password` against `hashed`: a malformed
/// digest is an error of its own, distinguished from a mismatch.
pub open spec fn password_check(password: Seq<char>, hashed: Seq<char>) -> Result<bool, AuthError> {
    match bcrypt_check(password, hashed) {
        Some(b) => Ok(b),
        None => Err(AuthError::HashingError),
    }
}

/// Relies on `bcrypt::hash` with `bcrypt::DEFAULT_COST`: the salt is drawn
/// from the operating system, and verifying the produced digest against the
/// same password recomputes it from that salt and compares equal, so
/// `bcrypt::verify(password, digest)` returns `Ok(true)`. The digest is
/// always the 60-character `$2b$...` form, never the plaintext password.
#[verifier::external_body]
fn bcrypt_hash(password: &str) -> (r: Result<String, AuthError>)
    ensures
        r matches Ok(h) ==> bcrypt_check(password@, h@) == Some(true),
        r matches Ok(h) ==> (h@.len() == 60 && h@[0] == '$' && h@[1] == '2' && h@[2] == 'b'),
        r matches Err(e) ==> e == AuthError::HashingError,
{
    bcrypt::hash(password, bcrypt::DEFAULT_COST).map_err(|_| AuthError::HashingError)
}

/// Relies on `bcrypt::verify`: deterministic in its two arguments, returns
/// `Ok(bool)` for a well-formed stored digest and an error for a malformed
/// one, and never panics.
#[verifier::external_body]
fn bcrypt_verify(password: &str, hashed: &str) -> (r: Result<bool, AuthError>)
    ensures
        r == password_check(password@, hashed@),
{
    bcrypt::verify(password, hashed).map_err(|_| AuthError::HashingError)
}

/// Produces a salted, adaptive-cost digest of `password`. Each call salts
/// anew, so repeated calls return different digests; every digest returned
/// verifies against the password it was made from, and has the fixed
/// 60-character `$2b$...` digest shape — it is never the plaintext.
pub fn hash_password(password: &str) -> (r: Result<String, AuthError>)
    ensures
        r matches Ok(h) ==> password_check(password@, h@) == Ok::<bool, AuthError>(true),
        r matches Ok(h) ==> (h@.len() == 60 && h@[0] == '$' && h@[1] == '2' && h@[2] == 'b'),
        r matches Err(e) ==> e == AuthError::HashingError,
{
    bcrypt_hash(password)
}

/// Checks `password` against a stored digest. Returns `Ok(false)` for a
/// well-formed digest that does not match, and `HashingError` for a
/// malformed digest — the two are never conflated.
pub fn verify_password(password: &str, hashed: &str) -> (r: Result<bool, AuthError>)
    ensures
        r == password_check(password@, hashed@),
{
    bcrypt_verify(password, hashed)
}

/// A digest produced from a password verifies against that password:
/// whenever hashing reports success, checking the pair succeeds with `true`.
pub proof fn lemma_verify_accepts_own_hash(password: Seq<char>, hashed: Seq<char>)
    requires
        bcrypt_check(password, hashed) == Some(true),
    ensures
        password_check(password, hashed) == Ok::<bool, AuthError>(true),
{
}

} // verus!
