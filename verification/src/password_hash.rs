//! Password hashing module: one-way, salted, memory-hard hashing and
//! verification, and the persistable account row built with it.

use vstd::prelude::*;

use crate::data_stores::UserStoreError;
use crate::user::Password;
use crate::user::User;

verus! {

/// Whether a stored hash string is a well-formed PHC string the
/// verifier can parse.
pub uninterp spec fn argon2_hash_parses(h: Seq<char>) -> bool;

/// What verification computes: whether recomputing the hash function
/// over `password`, with the salt and parameters recorded in `h`,
/// reproduces `h`. A function of the two texts alone.
pub uninterp spec fn argon2_matches(h: Seq<char>, password: Seq<char>) -> bool;

/// Relies on argon2::PasswordHash::new to parse the stored PHC string and
/// Argon2::verify_password to recompute and compare; both are functions of
/// their text arguments alone. A verification failure is reported as
/// `Ok(false)`, a hash that cannot be parsed as an operator-level error.
#[verifier::external_body]
pub fn verify_password_hash(expected_password_hash: &String, password_candidate: &String) -> (r:
    Result<bool, UserStoreError>)
    ensures
        match r {
            Ok(b) => argon2_hash_parses(expected_password_hash@) && b == argon2_matches(
                expected_password_hash@,
                password_candidate@,
            ),
            Err(e) => e == UserStoreError::UnexpectedError && !argon2_hash_parses(
                expected_password_hash@,
            ),
        },
{
    let parsed = match argon2::PasswordHash::new(expected_password_hash.as_str()) {
        Ok(p) => p,
        Err(_) => return Err(UserStoreError::UnexpectedError),
    };
    match argon2::PasswordVerifier::verify_password(
        &argon2::Argon2::default(),
        password_candidate.as_bytes(),
        &parsed,
    ) {
        Ok(()) => Ok(true),
        Err(_) => Ok(false),
    }
}

/// Relies on Argon2::hash_password with a freshly generated random salt:
/// the resulting PHC string parses, and verifying the hashed password
/// against it succeeds. The salt is random, so the string itself is not
/// promised — every call may return a different hash.
#[verifier::external_body]
fn compute_password_hash(password: &Password) -> (r: Result<String, UserStoreError>)
    ensures
        r matches Ok(h) ==> argon2_hash_parses(h@) && argon2_matches(h@, password@),
        r matches Err(e) ==> e == UserStoreError::UnexpectedError,
{
    let salt = argon2::password_hash::SaltString::generate(&mut rand::thread_rng());
    let params = match argon2::Params::new(15000, 2, 1, None) {
        Ok(p) => p,
        Err(_) => return Err(UserStoreError::UnexpectedError),
    };
    let hasher = argon2::Argon2::new(argon2::Algorithm::Argon2id, argon2::Version::V0x13, params);
    match argon2::PasswordHasher::hash_password(&hasher, password.as_str().as_bytes(), &salt) {
        Ok(h) => Ok(h.to_string()),
        Err(_) => Err(UserStoreError::UnexpectedError),
    }
}

/// A persisted account row: identity, salted password hash, and the
/// second-factor flag. The raw credential never reaches a row.
pub struct Users {
    pub email: String,
    pub password_hash: String,
    pub requires_2fa: bool,
}

impl Users {
    /// Builds the persistable row for an account, hashing the credential.
    pub fn from_user(user: &User) -> (r: Result<Users, UserStoreError>)
        ensures
            r matches Ok(row) ==> {
                &&& row.email@ == user.email@
                &&& row.requires_2fa == user.requires_2fa
                &&& argon2_hash_parses(row.password_hash@)
                &&& argon2_matches(row.password_hash@, user.password@)
            },
            r matches Err(e) ==> e == UserStoreError::UnexpectedError,
    {
        let hash = match compute_password_hash(&user.password) {
            Ok(h) => h,
            Err(e) => {
                return Err(e);
            },
        };
        Ok(
            Users {
                email: user.email.as_str().to_owned(),
                password_hash: hash,
                requires_2fa: user.requires_2fa,
            },
        )
    }
}

/// What checking a candidate against a stored hash must report: an
/// unparseable stored hash is an operator-level failure, a mismatch a
/// credential rejection, a match an acceptance.
pub open spec fn row_check_outcome(h: Seq<char>, password: Seq<char>) -> Result<
    (),
    UserStoreError,
> {
    if !argon2_hash_parses(h) {
        Err(UserStoreError::UnexpectedError)
    } else if argon2_matches(h, password) {
        Ok(())
    } else {
        Err(UserStoreError::InvalidCredentials)
    }
}

/// Checks a candidate credential against a stored row, reporting exactly
/// [`row_check_outcome`] of the stored hash and the candidate.
pub fn check_user_row(row: &Users, password: &Password) -> (r: Result<(), UserStoreError>)
    ensures
        r == row_check_outcome(row.password_hash@, password@),
{
    let candidate = password.as_str().to_owned();
    match verify_password_hash(&row.password_hash, &candidate) {
        Ok(true) => Ok(()),
        Ok(false) => Err(UserStoreError::InvalidCredentials),
        Err(_) => Err(UserStoreError::UnexpectedError),
    }
}

} // verus!
