//! The error taxonomy of the authentication core, and its mapping to
//! user-visible HTTP status codes.

use vstd::prelude::*;

verus! {

/// Every failure the core can report, one variant per user-visible category.
#[derive(Debug, Clone, Copy, PartialEq, Eq, Structural)]
pub enum AuthError {
    /// The request body was malformed.
    ValidationError,
    /// Registration found an existing record with the same username.
    DuplicateUsername,
    /// Login failed: the username does not exist or the password is wrong.
    /// The two causes are deliberately indistinguishable.
    InvalidCredentials,
    /// A presented token could not be parsed.
    TokenMalformed,
    /// A presented token parsed but its signature does not match.
    TokenSignatureInvalid,
    /// A presented token is genuine but past its expiry.
    TokenExpired,
    /// The caller's network address is not allowed to use the endpoint.
    AccessDenied,
    /// The password hashing algorithm rejected its input or a stored digest.
    HashingError,
    /// A persistence operation failed for an internal reason.
    StorageError,
}

/// The HTTP status code each error maps to at the service boundary:
/// 400 for bad input, 401 for authentication failures, 403 for the
/// access gate, 500 for internal failures.
pub fn status_for_error(e: &AuthError) -> (r: u16)
    ensures
        (e is ValidationError || e is DuplicateUsername) ==> r == 400,
        (e is InvalidCredentials || e is TokenMalformed || e is TokenSignatureInvalid
            || e is TokenExpired) ==> r == 401,
        e is AccessDenied ==> r == 403,
        (e is HashingError || e is StorageError) ==> r == 500,
{
    match e {
        AuthError::ValidationError => 400,
        AuthError::DuplicateUsername => 400,
        AuthError::InvalidCredentials => 401,
        AuthError::TokenMalformed => 401,
        AuthError::TokenSignatureInvalid => 401,
        AuthError::TokenExpired => 401,
        AuthError::AccessDenied => 403,
        AuthError::HashingError => 500,
        AuthError::StorageError => 500,
    }
}

} // verus!
