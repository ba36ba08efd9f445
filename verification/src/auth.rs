//! Session tokens: issuance of signed, self-contained credentials with a
//! fixed time to live, and validation with revocation short-circuiting
//! signature and expiry checks.

use vstd::prelude::*;

use crate::data_stores::BannedTokenStore;
use crate::error::AuthAPIError;
use crate::user::Email;

verus! {

/// How long an issued token stays valid, in seconds.
pub const TOKEN_TTL_SECONDS: u64 = 600;

/// The claims a session token carries: subject identity and expiry
/// timestamp (seconds since the Unix epoch).
pub struct Claims {
    pub sub: String,
    pub exp: u64,
}

/// What signing computes: the token text for a claims set and secret.
/// Deterministic: the header is fixed and HMAC signing derives from the
/// message and key alone.
pub uninterp spec fn jwt_encoding(sub: Seq<char>, exp: u64, secret: Seq<u8>) -> Seq<char>;

/// What decoding computes: the claims recovered from a token whose
/// signature verifies under the secret, or nothing. A function of the
/// token and secret alone — expiry is deliberately left to the caller.
pub uninterp spec fn jwt_decoding(token: Seq<char>, secret: Seq<u8>) -> Option<(Seq<char>, u64)>;

/// Relies on jsonwebtoken::encode with the default header (HS256) and an
/// HMAC secret: deterministic in claims and secret, and decoding the
/// result with the same secret recovers exactly the claims encoded.
/// Encoding always succeeds: the HMAC signing path cannot fail, and a
/// string-keyed JSON object of these claims always serializes.
#[verifier::external_body]
fn jwt_encode(sub: &String, exp: u64, secret: &[u8]) -> (r: Option<String>)
    ensures
        r is Some,
        r matches Some(t) ==> t@ == jwt_encoding(sub@, exp, secret@) && jwt_decoding(t@, secret@)
            == Some((sub@, exp)),
{
    let mut claims = serde_json::Map::new();
    claims.insert("sub".to_string(), serde_json::Value::String(sub.clone()));
    claims.insert("exp".to_string(), serde_json::Value::from(exp));
    jsonwebtoken::encode(
        &jsonwebtoken::Header::default(),
        &serde_json::Value::Object(claims),
        &jsonwebtoken::EncodingKey::from_secret(secret),
    ).ok()
}

/// Relies on jsonwebtoken::decode: verifies the HS256 signature under the
/// secret and deserializes the subject and expiry claims. Expiry is not
/// validated here, so the outcome is a function of token and secret alone.
#[verifier::external_body]
fn jwt_decode(token: &String, secret: &[u8]) -> (r: Option<(String, u64)>)
    ensures
        r matches Some(p) ==> jwt_decoding(token@, secret@) == Some((p.0@, p.1)),
        r is None ==> jwt_decoding(token@, secret@) is None,
{
    let mut validation = jsonwebtoken::Validation::default();
    validation.validate_exp = false;
    let data = jsonwebtoken::decode::<serde_json::Value>(
        token.as_str(),
        &jsonwebtoken::DecodingKey::from_secret(secret),
        &validation,
    ).ok()?;
    let sub = data.claims.get("sub")?.as_str()?.to_string();
    let exp = data.claims.get("exp")?.as_u64()?;
    Some((sub, exp))
}

/// Relies on chrono::Utc::now for the current Unix timestamp. Nothing is
/// promised of a clock reading; a pre-epoch instant reads as zero.
#[verifier::external_body]
pub(crate) fn current_unix_time() -> u64 {
    u64::try_from(chrono::Utc::now().timestamp()).unwrap_or(0)
}

#[derive(Clone, Copy, Debug, PartialEq, Eq, Structural)]
pub enum GenerateTokenError {
    TokenError,
    UnexpectedError,
}

/// Builds the signed session token for a subject with an explicit expiry.
/// Signing these claims cannot fail, so success is owed.
pub fn auth_token_with_expiry(email: &Email, secret: &[u8], exp: u64) -> (r: Result<
    String,
    GenerateTokenError,
>)
    ensures
        r is Ok,
        r matches Ok(t) ==> t@ == jwt_encoding(email@, exp, secret@) && jwt_decoding(t@, secret@)
            == Some((email@, exp)),
{
    let sub = email.as_str().to_owned();
    match jwt_encode(&sub, exp, secret) {
        Some(t) => Ok(t),
        None => Err(GenerateTokenError::TokenError),
    }
}

/// Issues a session token for the identity: the subject is the identity
/// and the expiry lies `TOKEN_TTL_SECONDS` past the current instant.
/// The one failure left is a clock reading so large that the expiry
/// cannot be represented.
pub fn generate_auth_token(email: &Email, secret: &[u8]) -> (r: Result<
    String,
    GenerateTokenError,
>)
    ensures
        r matches Ok(t) ==> match jwt_decoding(t@, secret@) {
            Some(p) => p.0 == email@,
            None => false,
        },
        r matches Err(e) ==> e == GenerateTokenError::UnexpectedError,
{
    let now = current_unix_time();
    if now > u64::MAX - TOKEN_TTL_SECONDS {
        return Err(GenerateTokenError::UnexpectedError);
    }
    auth_token_with_expiry(email, secret, now + TOKEN_TTL_SECONDS)
}

/// The validation policy: revocation short-circuits everything — a
/// revoked but unexpired token never reaches a successful signature or
/// expiry check — then the signature, then the expiry against `now`.
pub open spec fn token_outcome(
    banned: Set<Seq<char>>,
    token: Seq<char>,
    secret: Seq<u8>,
    now: u64,
) -> Result<(Seq<char>, u64), AuthAPIError> {
    if banned.contains(token) {
        Err(AuthAPIError::Revoked)
    } else {
        match jwt_decoding(token, secret) {
            None => Err(AuthAPIError::InvalidToken),
            Some(p) => if p.1 <= now {
                Err(AuthAPIError::Expired)
            } else {
                Ok(p)
            },
        }
    }
}

/// Validates a session token against the revocation store at the instant
/// `now`, following [`token_outcome`] exactly; `UnexpectedError` is
/// reserved for a failing revocation store.
pub fn validate_token_at<B: BannedTokenStore>(
    banned_token_store: &B,
    token: &String,
    secret: &[u8],
    now: u64,
) -> (r: Result<Claims, AuthAPIError>)
    ensures
        match r {
            Ok(c) => token_outcome(banned_token_store.tokens(), token@, secret@, now) == Ok::<
                (Seq<char>, u64),
                AuthAPIError,
            >((c.sub@, c.exp)),
            Err(AuthAPIError::UnexpectedError) => true,
            Err(e) => token_outcome(banned_token_store.tokens(), token@, secret@, now) == Err::<
                (Seq<char>, u64),
                AuthAPIError,
            >(e),
        },
{
    match banned_token_store.contains_token(token) {
        Ok(true) => {
            return Err(AuthAPIError::Revoked);
        },
        Ok(false) => {},
        Err(_) => {
            return Err(AuthAPIError::UnexpectedError);
        },
    }
    match jwt_decode(token, secret) {
        None => Err(AuthAPIError::InvalidToken),
        Some(p) => {
            if p.1 <= now {
                Err(AuthAPIError::Expired)
            } else {
                Ok(Claims { sub: p.0, exp: p.1 })
            }
        },
    }
}

/// Validates a token at the current instant. Everything but the exact
/// expiry comparison, which depends on the clock reading, is pinned.
pub fn validate_token<B: BannedTokenStore>(
    token: &String,
    banned_token_store: &B,
    secret: &[u8],
) -> (r: Result<Claims, AuthAPIError>)
    ensures
        match r {
            Ok(c) => !banned_token_store.tokens().contains(token@) && jwt_decoding(
                token@,
                secret@,
            ) == Some((c.sub@, c.exp)),
            Err(AuthAPIError::Revoked) => banned_token_store.tokens().contains(token@),
            Err(AuthAPIError::InvalidToken) => !banned_token_store.tokens().contains(token@)
                && jwt_decoding(token@, secret@) is None,
            Err(AuthAPIError::Expired) => !banned_token_store.tokens().contains(token@)
                && jwt_decoding(token@, secret@) is Some,
            Err(AuthAPIError::UnexpectedError) => true,
            _ => false,
        },
{
    let now = current_unix_time();
    validate_token_at(banned_token_store, token, secret, now)
}

} // verus!
