//! The signup flow: shape-check the credentials, reject duplicates,
//! persist the new account.

use vstd::prelude::*;

use crate::data_stores::UserStore;
use crate::data_stores::UserStoreError;
use crate::error::AuthAPIError;
use crate::user::email_valid;
use crate::user::password_valid;
use crate::user::Email;
use crate::user::Password;
use crate::user::User;

verus! {

pub struct SignupRequest {
    pub email: String,
    pub password: String,
    pub requires_2fa: bool,
}

pub struct SignupResponse {
    pub message: String,
}

/// Creates an account. Malformed input is rejected as exactly
/// `InvalidCredentials`, before any store access and leaving the store
/// unchanged; a present identity is reported as a collision; on success
/// the record is persisted with the hashing discipline of the store and
/// the requested second-factor flag. `UnexpectedError` can arise only
/// from the store, never before it is consulted.
pub fn signup<U: UserStore>(user_store: &mut U, request: SignupRequest) -> (r: Result<
    SignupResponse,
    AuthAPIError,
>)
    ensures
        !(email_valid(request.email@) && password_valid(request.password@)) ==> r == Err::<
            SignupResponse,
            AuthAPIError,
        >(AuthAPIError::InvalidCredentials) && *final(user_store) == *old(user_store),
        match r {
            Ok(resp) => {
                &&& resp.message@ == "User created successfully!"@
                &&& email_valid(request.email@)
                &&& password_valid(request.password@)
                &&& !old(user_store).accounts().contains_key(request.email@)
                &&& final(user_store).accounts().contains_key(request.email@)
                &&& final(user_store).accounts()[request.email@].1 == request.requires_2fa
                &&& final(user_store).validates(request.email@, request.password@)
            },
            Err(AuthAPIError::InvalidCredentials) => {
                &&& !(email_valid(request.email@) && password_valid(request.password@))
                &&& *final(user_store) == *old(user_store)
            },
            Err(AuthAPIError::UserAlreadyExists) => {
                &&& email_valid(request.email@)
                &&& password_valid(request.password@)
                &&& old(user_store).accounts().contains_key(request.email@)
                &&& final(user_store).accounts() == old(user_store).accounts()
            },
            Err(AuthAPIError::UnexpectedError) => email_valid(request.email@) && password_valid(
                request.password@,
            ),
            _ => false,
        },
{
    let email = match Email::parse(request.email) {
        Ok(e) => e,
        Err(_) => {
            return Err(AuthAPIError::InvalidCredentials);
        },
    };
    let password = match Password::parse(request.password) {
        Ok(p) => p,
        Err(_) => {
            return Err(AuthAPIError::InvalidCredentials);
        },
    };
    let user = User::new(email, password, request.requires_2fa);
    match user_store.get_user(&user.email) {
        Ok(_) => {
            return Err(AuthAPIError::UserAlreadyExists);
        },
        Err(_) => {},
    }
    match user_store.add_user(user) {
        Ok(()) => Ok(SignupResponse { message: "User created successfully!".to_owned() }),
        Err(UserStoreError::UserAlreadyExists) => Err(AuthAPIError::UserAlreadyExists),
        Err(_) => Err(AuthAPIError::UnexpectedError),
    }
}

} // verus!
