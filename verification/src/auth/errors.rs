//! Errors of authentication.

use vstd::prelude::*;

verus! {

/// An error of authentication.
#[derive(Debug, Clone, PartialEq, Eq)]
pub enum AuthError {
    /// The input is not valid.
    ValidationError(String),
    /// The token is not known.
    TokenInvalid(String),
    /// The token has expired.
    TokenExpired,
    /// The user is not known.
    UserNotFound,
    /// Too many attempts.
    RateLimitExceeded(String),
    /// An error of multi-factor authentication.
    MfaError(String),
    /// An error of OAuth.
    OAuthError(String),
}

/// Result type for authentication.
pub type AuthResult<T> = Result<T, AuthError>;

} // verus!
