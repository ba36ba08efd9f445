//! The outward-facing error taxonomy of the authentication flows.

use vstd::prelude::*;

use crate::data_stores::UserStoreError;

verus! {

/// Every failure a flow can report to a caller.
///
/// `InvalidCredentials` rejects malformed input before any store is touched;
/// `IncorrectCredentials` deliberately conflates "no such user" and "wrong
/// secret" to prevent account enumeration. `Revoked` and `Expired` are
/// session-validation outcomes; `UnexpectedError` stands for any underlying
/// store or cryptographic failure and is rendered opaquely to callers.
#[derive(Clone, Copy, Debug, PartialEq, Eq, Structural)]
pub enum AuthAPIError {
    UserAlreadyExists,
    InvalidCredentials,
    IncorrectCredentials,
    MissingToken,
    InvalidToken,
    Revoked,
    Expired,
    UnexpectedError,
}

impl From<UserStoreError> for AuthAPIError {
    /// Maps store-level outcomes into the outward taxonomy: an unknown
    /// identity becomes a credential rejection, never its own signal.
    fn from(error: UserStoreError) -> AuthAPIError {
        match error {
            UserStoreError::UserNotFound => AuthAPIError::IncorrectCredentials,
            UserStoreError::InvalidCredentials => AuthAPIError::InvalidCredentials,
            UserStoreError::UserAlreadyExists => AuthAPIError::UserAlreadyExists,
            UserStoreError::UnexpectedError => AuthAPIError::UnexpectedError,
        }
    }
}

impl vstd::std_specs::convert::FromSpecImpl<UserStoreError> for AuthAPIError {
    open spec fn obeys_from_spec() -> bool {
        true
    }

    open spec fn from_spec(error: UserStoreError) -> AuthAPIError {
        match error {
            UserStoreError::UserNotFound => AuthAPIError::IncorrectCredentials,
            UserStoreError::InvalidCredentials => AuthAPIError::InvalidCredentials,
            UserStoreError::UserAlreadyExists => AuthAPIError::UserAlreadyExists,
            UserStoreError::UnexpectedError => AuthAPIError::UnexpectedError,
        }
    }
}

impl AuthAPIError {
    /// The caller-facing message for this failure; `UnexpectedError`
    /// stays generic by design.
    pub fn message(&self) -> (r: String)
        ensures
            r@ == match *self {
                AuthAPIError::UserAlreadyExists => "User already exists"@,
                AuthAPIError::InvalidCredentials => "Invalid credentials"@,
                AuthAPIError::IncorrectCredentials => "Incorrect credentials"@,
                AuthAPIError::MissingToken => "Missing token"@,
                AuthAPIError::InvalidToken => "Invalid token"@,
                AuthAPIError::Revoked => "Revoked token"@,
                AuthAPIError::Expired => "Expired token"@,
                AuthAPIError::UnexpectedError => "Unexpected error"@,
            },
    {
        match *self {
            AuthAPIError::UserAlreadyExists => "User already exists".to_owned(),
            AuthAPIError::InvalidCredentials => "Invalid credentials".to_owned(),
            AuthAPIError::IncorrectCredentials => "Incorrect credentials".to_owned(),
            AuthAPIError::MissingToken => "Missing token".to_owned(),
            AuthAPIError::InvalidToken => "Invalid token".to_owned(),
            AuthAPIError::Revoked => "Revoked token".to_owned(),
            AuthAPIError::Expired => "Expired token".to_owned(),
            AuthAPIError::UnexpectedError => "Unexpected error".to_owned(),
        }
    }
}

/// The body shape in which a failure is rendered to a caller.
pub struct ErrorResponse {
    pub error: String,
}

} // verus!
