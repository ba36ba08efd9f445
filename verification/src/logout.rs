//! The logout flow: the session token is required, validated, and then
//! revoked — it joins the banned set until its natural expiry.

use vstd::prelude::*;

use crate::auth::current_unix_time;
use crate::auth::jwt_decoding;
use crate::auth::validate_token_at;
use crate::data_stores::BannedTokenStore;
use crate::error::AuthAPIError;

verus! {

/// Logs a session out. A missing cookie is rejected as exactly
/// `MissingToken` with the store untouched; an invalid, revoked or
/// expired token is reported without touching the store; a valid token
/// is inserted into the revocation set. `UnexpectedError` can arise only
/// from the store, once a token is in hand.
pub fn logout<B: BannedTokenStore>(
    banned_token_store: &mut B,
    cookie_token: Option<String>,
    secret: &[u8],
) -> (r: Result<(), AuthAPIError>)
    ensures
        cookie_token is None ==> r == Err::<(), AuthAPIError>(AuthAPIError::MissingToken)
            && final(banned_token_store).tokens() == old(banned_token_store).tokens(),
        match r {
            Ok(()) => cookie_token matches Some(t) && {
                &&& !old(banned_token_store).tokens().contains(t@)
                &&& jwt_decoding(t@, secret@) is Some
                &&& final(banned_token_store).tokens() == old(banned_token_store).tokens().insert(
                    t@,
                )
            },
            Err(AuthAPIError::MissingToken) => cookie_token is None
                && final(banned_token_store).tokens() == old(banned_token_store).tokens(),
            Err(AuthAPIError::Revoked) => cookie_token matches Some(t) && {
                &&& old(banned_token_store).tokens().contains(t@)
                &&& final(banned_token_store).tokens() == old(banned_token_store).tokens()
            },
            Err(AuthAPIError::InvalidToken) => cookie_token matches Some(t) && {
                &&& !old(banned_token_store).tokens().contains(t@)
                &&& jwt_decoding(t@, secret@) is None
                &&& final(banned_token_store).tokens() == old(banned_token_store).tokens()
            },
            Err(AuthAPIError::Expired) => cookie_token matches Some(t) && {
                &&& !old(banned_token_store).tokens().contains(t@)
                &&& jwt_decoding(t@, secret@) is Some
                &&& final(banned_token_store).tokens() == old(banned_token_store).tokens()
            },
            Err(AuthAPIError::UnexpectedError) => cookie_token is Some,
            _ => false,
        },
{
    let token = match cookie_token {
        Some(t) => t,
        None => {
            return Err(AuthAPIError::MissingToken);
        },
    };
    let now = current_unix_time();
    match validate_token_at(&*banned_token_store, &token, secret, now) {
        Ok(_) => {},
        Err(e) => {
            return Err(e);
        },
    }
    match banned_token_store.add_token(token) {
        Ok(()) => Ok(()),
        Err(_) => Err(AuthAPIError::UnexpectedError),
    }
}

} // verus!
