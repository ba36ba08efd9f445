//! The token verification flow: success or failure maps directly to
//! allow or deny for a relying caller.

use vstd::prelude::*;

use crate::auth::current_unix_time;
use crate::auth::jwt_decoding;
use crate::auth::validate_token_at;
use crate::data_stores::BannedTokenStore;
use crate::error::AuthAPIError;

verus! {

pub struct VerifyRequest {
    pub token: String,
}

/// Checks a supplied token: revocation first, then signature, then
/// expiry at the current instant.
pub fn verify_token<B: BannedTokenStore>(
    banned_token_store: &B,
    request: &VerifyRequest,
    secret: &[u8],
) -> (r: Result<(), AuthAPIError>)
    ensures
        match r {
            Ok(()) => !banned_token_store.tokens().contains(request.token@) && jwt_decoding(
                request.token@,
                secret@,
            ) is Some,
            Err(AuthAPIError::Revoked) => banned_token_store.tokens().contains(request.token@),
            Err(AuthAPIError::InvalidToken) => !banned_token_store.tokens().contains(
                request.token@,
            ) && jwt_decoding(request.token@, secret@) is None,
            Err(AuthAPIError::Expired) => !banned_token_store.tokens().contains(request.token@)
                && jwt_decoding(request.token@, secret@) is Some,
            Err(AuthAPIError::UnexpectedError) => true,
            _ => false,
        },
{
    let now = current_unix_time();
    match validate_token_at(banned_token_store, &request.token, secret, now) {
        Ok(_) => Ok(()),
        Err(e) => Err(e),
    }
}

} // verus!
