//! The login flow: credentials are checked first, every rejection
//! collapsing to one outward signal; then either a session token is
//! issued directly, or a fresh second-factor challenge is stored and
//! dispatched and the caller receives only the attempt identifier.

use vstd::prelude::*;

use crate::auth::generate_auth_token;
use crate::auth::jwt_decoding;
use crate::data_stores::two_fa_code_valid;
use crate::data_stores::LoginAttemptId;
use crate::data_stores::TwoFACode;
use crate::data_stores::TwoFACodeStore;
use crate::data_stores::UserStore;
use crate::data_stores::UserStoreError;
use crate::email_client::EmailClient;
use crate::error::AuthAPIError;
use crate::user::email_valid;
use crate::user::password_valid;
use crate::user::Email;
use crate::user::Password;

verus! {

pub struct LoginRequest {
    pub email: String,
    pub password: String,
}

/// The two success shapes of a login: a session issued outright, or a
/// pending second factor identified by a fresh attempt identifier. The
/// code itself never appears in a response.
pub enum LoginResponse {
    RegularAuth,
    TwoFactorAuth(TwoFactorAuthResponse),
}

pub struct TwoFactorAuthResponse {
    pub message: String,
    pub login_attempt_id: String,
}

/// Attempts a login. On success the second component carries the session
/// token to attach to the caller's cookie — present exactly on the
/// no-second-factor path.
///
/// Malformed input is rejected as exactly `InvalidCredentials` before any
/// store is consulted. Credential rejection deliberately conflates
/// "unknown identity" and "wrong password" into `IncorrectCredentials`.
/// `UnexpectedError` can arise only past shape validation, from a store,
/// the dispatcher or the signer.
pub fn login<U: UserStore, T: TwoFACodeStore, E: EmailClient>(
    user_store: &U,
    two_fa_code_store: &mut T,
    email_client: &E,
    request: LoginRequest,
    secret: &[u8],
) -> (r: Result<(LoginResponse, Option<String>), AuthAPIError>)
    ensures
        !(email_valid(request.email@) && password_valid(request.password@)) ==> r == Err::<
            (LoginResponse, Option<String>),
            AuthAPIError,
        >(AuthAPIError::InvalidCredentials) && final(two_fa_code_store).codes() == old(
            two_fa_code_store,
        ).codes(),
        match r {
            Ok((resp, token)) => {
                &&& email_valid(request.email@)
                &&& password_valid(request.password@)
                &&& user_store.accounts().contains_key(request.email@)
                &&& user_store.validates(request.email@, request.password@)
                &&& match resp {
                    LoginResponse::RegularAuth => {
                        &&& user_store.accounts()[request.email@].1 == false
                        &&& token matches Some(t) && (match jwt_decoding(t@, secret@) {
                            Some(p) => p.0 == request.email@,
                            None => false,
                        })
                        &&& final(two_fa_code_store).codes() == old(two_fa_code_store).codes()
                    },
                    LoginResponse::TwoFactorAuth(tfa) => {
                        &&& tfa.message@ == "2FA required"@
                        &&& user_store.accounts()[request.email@].1 == true
                        &&& token is None
                        &&& final(two_fa_code_store).codes().contains_key(request.email@)
                        &&& final(two_fa_code_store).codes()[request.email@].0
                            == tfa.login_attempt_id@
                        &&& two_fa_code_valid(
                            final(two_fa_code_store).codes()[request.email@].1,
                        )
                        &&& forall|e: Seq<char>|
                            e != request.email@
                                ==> #[trigger] final(two_fa_code_store).codes().contains_key(e)
                                == old(two_fa_code_store).codes().contains_key(e)
                        &&& forall|e: Seq<char>|
                            e != request.email@ && old(two_fa_code_store).codes().contains_key(e)
                                ==> #[trigger] final(two_fa_code_store).codes()[e]
                                == old(two_fa_code_store).codes()[e]
                    },
                }
            },
            Err(AuthAPIError::InvalidCredentials) => {
                &&& !(email_valid(request.email@) && password_valid(request.password@))
                &&& final(two_fa_code_store).codes() == old(two_fa_code_store).codes()
            },
            Err(AuthAPIError::IncorrectCredentials) => {
                &&& email_valid(request.email@)
                &&& password_valid(request.password@)
                &&& !(user_store.accounts().contains_key(request.email@)
                    && user_store.validates(request.email@, request.password@))
                &&& final(two_fa_code_store).codes() == old(two_fa_code_store).codes()
            },
            Err(AuthAPIError::UnexpectedError) => email_valid(request.email@) && password_valid(
                request.password@,
            ),
            _ => false,
        },
{
    let email = match Email::parse(request.email) {
        Ok(e) => e,
        Err(_) => {
            return Err(AuthAPIError::InvalidCredentials);
        },
    };
    let password = match Password::parse(request.password) {
        Ok(p) => p,
        Err(_) => {
            return Err(AuthAPIError::InvalidCredentials);
        },
    };
    match user_store.validate_user(&email, &password) {
        Ok(()) => {},
        Err(UserStoreError::UserNotFound) => {
            return Err(AuthAPIError::IncorrectCredentials);
        },
        Err(UserStoreError::InvalidCredentials) => {
            return Err(AuthAPIError::IncorrectCredentials);
        },
        Err(_) => {
            return Err(AuthAPIError::UnexpectedError);
        },
    }
    let user = match user_store.get_user(&email) {
        Ok(u) => u,
        Err(UserStoreError::UserNotFound) => {
            return Err(AuthAPIError::IncorrectCredentials);
        },
        Err(_) => {
            return Err(AuthAPIError::UnexpectedError);
        },
    };
    if user.requires_2fa {
        let login_attempt_id = LoginAttemptId::default();
        let two_fa_code = TwoFACode::default();
        let id_text = login_attempt_id.as_str().to_owned();
        let code_text = two_fa_code.as_str().to_owned();
        match two_fa_code_store.add_code(email.duplicate(), login_attempt_id, two_fa_code) {
            Ok(()) => {},
            Err(_) => {
                return Err(AuthAPIError::UnexpectedError);
            },
        }
        match email_client.send_email(&email, "2FA Code", code_text.as_str()) {
            Ok(()) => {},
            Err(_) => {
                return Err(AuthAPIError::UnexpectedError);
            },
        }
        let resp = TwoFactorAuthResponse {
            message: "2FA required".to_owned(),
            login_attempt_id: id_text,
        };
        Ok((LoginResponse::TwoFactorAuth(resp), None))
    } else {
        match generate_auth_token(&email, secret) {
            Ok(t) => Ok((LoginResponse::RegularAuth, Some(t))),
            Err(_) => Err(AuthAPIError::UnexpectedError),
        }
    }
}

} // verus!
