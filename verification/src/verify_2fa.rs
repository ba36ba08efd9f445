//! The second-factor submission flow: the pending challenge must match
//! the submitted pair exactly, and a successful match consumes it —
//! the same pair can never succeed twice.

use vstd::prelude::*;

use crate::auth::generate_auth_token;
use crate::auth::jwt_decoding;
use crate::data_stores::two_fa_code_valid;
use crate::data_stores::uuid_canon;
use crate::data_stores::LoginAttemptId;
use crate::data_stores::TwoFACode;
use crate::data_stores::TwoFACodeStore;
use crate::data_stores::TwoFACodeStoreError;
use crate::error::AuthAPIError;
use crate::user::email_valid;
use crate::user::Email;

verus! {

pub struct Verify2FARequest {
    pub email: String,
    pub login_attempt_id: String,
    pub two_fa_code: String,
}

/// Whether a submitted (identifier, code) pair matches the pending
/// challenge the store holds for the identity: the entry must exist and
/// both components must agree exactly.
pub open spec fn two_fa_submission_matches(
    m: Map<Seq<char>, (Seq<char>, Seq<char>)>,
    email: Seq<char>,
    cid: Seq<char>,
    code: Seq<char>,
) -> bool {
    m.contains_key(email) && m[email] == (cid, code)
}

/// Submits a second-factor pair. Malformed fields are rejected as exactly
/// `InvalidCredentials`, before the store is consulted; an absent entry
/// and a mismatching pair both report `IncorrectCredentials`; an exact
/// match removes the pending entry and issues a session token whose
/// subject is the identity. `UnexpectedError` can arise only past shape
/// validation, from the store or the signer.
pub fn verify_2fa<T: TwoFACodeStore>(
    two_fa_code_store: &mut T,
    request: Verify2FARequest,
    secret: &[u8],
) -> (r: Result<String, AuthAPIError>)
    ensures
        !(email_valid(request.email@) && uuid_canon(request.login_attempt_id@) is Some
            && two_fa_code_valid(request.two_fa_code@)) ==> r == Err::<String, AuthAPIError>(
            AuthAPIError::InvalidCredentials,
        ) && final(two_fa_code_store).codes() == old(two_fa_code_store).codes(),
        match r {
            Ok(token) => {
                &&& email_valid(request.email@)
                &&& two_fa_code_valid(request.two_fa_code@)
                &&& match uuid_canon(request.login_attempt_id@) {
                    Some(cid) => two_fa_submission_matches(
                        old(two_fa_code_store).codes(),
                        request.email@,
                        cid,
                        request.two_fa_code@,
                    ),
                    None => false,
                }
                &&& final(two_fa_code_store).codes() == old(two_fa_code_store).codes().remove(
                    request.email@,
                )
                &&& match jwt_decoding(token@, secret@) {
                    Some(p) => p.0 == request.email@,
                    None => false,
                }
            },
            Err(AuthAPIError::InvalidCredentials) => {
                &&& !(email_valid(request.email@) && uuid_canon(request.login_attempt_id@) is Some
                    && two_fa_code_valid(request.two_fa_code@))
                &&& final(two_fa_code_store).codes() == old(two_fa_code_store).codes()
            },
            Err(AuthAPIError::IncorrectCredentials) => {
                &&& email_valid(request.email@)
                &&& two_fa_code_valid(request.two_fa_code@)
                &&& match uuid_canon(request.login_attempt_id@) {
                    Some(cid) => !two_fa_submission_matches(
                        old(two_fa_code_store).codes(),
                        request.email@,
                        cid,
                        request.two_fa_code@,
                    ),
                    None => false,
                }
                &&& final(two_fa_code_store).codes() == old(two_fa_code_store).codes()
            },
            Err(AuthAPIError::UnexpectedError) => email_valid(request.email@) && uuid_canon(
                request.login_attempt_id@,
            ) is Some && two_fa_code_valid(request.two_fa_code@),
            _ => false,
        },
{
    let email = match Email::parse(request.email) {
        Ok(e) => e,
        Err(_) => {
            return Err(AuthAPIError::InvalidCredentials);
        },
    };
    let login_attempt_id = match LoginAttemptId::parse(request.login_attempt_id) {
        Ok(x) => x,
        Err(_) => {
            return Err(AuthAPIError::InvalidCredentials);
        },
    };
    let two_fa_code = match TwoFACode::parse(request.two_fa_code) {
        Ok(c) => c,
        Err(_) => {
            return Err(AuthAPIError::InvalidCredentials);
        },
    };
    let pair = match two_fa_code_store.get_code(&email) {
        Ok(p) => p,
        Err(TwoFACodeStoreError::LoginAttemptIdNotFound) => {
            return Err(AuthAPIError::IncorrectCredentials);
        },
        Err(_) => {
            return Err(AuthAPIError::UnexpectedError);
        },
    };
    let id_matches = pair.0 == login_attempt_id;
    let code_matches = pair.1 == two_fa_code;
    if !(id_matches && code_matches) {
        return Err(AuthAPIError::IncorrectCredentials);
    }
    match two_fa_code_store.remove_code(&email) {
        Ok(()) => {},
        Err(_) => {
            return Err(AuthAPIError::UnexpectedError);
        },
    }
    match generate_auth_token(&email, secret) {
        Ok(t) => Ok(t),
        Err(_) => Err(AuthAPIError::UnexpectedError),
    }
}

} // verus!
