//! The typed outcomes that every authentication use case can surface.

use vstd::prelude::*;

verus! {

/// Every failure an authentication use case may report. Nothing else crosses
/// the service boundary: dependency errors are mapped to one of these first.
#[derive(Clone, Copy, Debug, PartialEq, Eq, Structural)]
pub enum AuthError {
    /// Registration found the requested username already in use.
    UsernameTaken,
    /// Login failed; deliberately the same for an unknown user and a wrong
    /// password, so callers cannot probe which usernames exist.
    InvalidCredentials,
    /// A token failed signature or structural checks, or an access token has
    /// expired; the cause is never distinguished for the caller.
    InvalidToken,
    /// A refresh token was well formed and correctly signed but past its own
    /// expiry; distinct from `InvalidToken` so a client can prompt re-login.
    RefreshTokenExpired,
    /// The user store rejected a write because of a uniqueness or revision
    /// conflict.
    StoreConflict,
    /// The user store could not be reached or answered outside its protocol.
    StoreUnavailable,
    /// An unexpected failure of a hashing or signing primitive.
    Internal,
}

impl AuthError {
    /// The message a transport layer may hand to its caller for this error.
    pub fn message(&self) -> (r: &'static str)
        ensures
            r@ == match *self {
                AuthError::UsernameTaken => "Username already exists"@,
                AuthError::InvalidCredentials => "Invalid credentials"@,
                AuthError::InvalidToken => "Invalid token"@,
                AuthError::RefreshTokenExpired => "Refresh token expired"@,
                AuthError::StoreConflict => "Store conflict"@,
                AuthError::StoreUnavailable => "Store unavailable"@,
                AuthError::Internal => "Internal error"@,
            },
    {
        match self {
            AuthError::UsernameTaken => "Username already exists",
            AuthError::InvalidCredentials => "Invalid credentials",
            AuthError::InvalidToken => "Invalid token",
            AuthError::RefreshTokenExpired => "Refresh token expired",
            AuthError::StoreConflict => "Store conflict",
            AuthError::StoreUnavailable => "Store unavailable",
            AuthError::Internal => "Internal error",
        }
    }
}

} // verus!
