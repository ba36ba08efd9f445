use auth_service::auth::auth_token_with_expiry;
use auth_service::auth::generate_auth_token;
use auth_service::auth::validate_token;
use auth_service::auth::validate_token_at;
use auth_service::data_stores::BannedTokenStore;
use auth_service::error::AuthAPIError;
use auth_service::hashset_banned_token_store::HashsetBannedTokenStore;
use auth_service::user::Email;

fn secret() -> &'static [u8] {
    "test_signing_secret".as_bytes()
}

#[test]
fn test_generate_auth_token() {
    let email = Email::parse("test@example.com".to_owned()).unwrap();
    let result = generate_auth_token(&email, secret()).unwrap();
    assert_eq!(result.split('.').count(), 3);
}

#[test]
fn test_validate_token_with_valid_token() {
    let email = Email::parse("test@example.com".to_owned()).unwrap();
    let token = generate_auth_token(&email, secret()).unwrap();
    let banned_token_store = HashsetBannedTokenStore::default();
    let result = validate_token(&token, &banned_token_store, secret()).unwrap();
    assert_eq!(result.sub, "test@example.com");

    let exp = chrono::Utc::now()
        .checked_add_signed(chrono::Duration::try_minutes(9).expect("valid duration"))
        .expect("valid timestamp")
        .timestamp();
    assert!(result.exp > exp as u64);
}

#[test]
fn test_validate_token_with_invalid_token() {
    let token = "invalid_token".to_owned();
    let banned_token_store = HashsetBannedTokenStore::default();
    let result = validate_token(&token, &banned_token_store, secret());
    assert!(result.is_err());
}

#[test]
fn validate_rejects_wrong_secret() {
    let email = Email::parse("test@example.com".to_owned()).unwrap();
    let token = generate_auth_token(&email, secret()).unwrap();
    let banned_token_store = HashsetBannedTokenStore::default();
    let result = validate_token(&token, &banned_token_store, "another_secret".as_bytes());
    assert!(matches!(result, Err(AuthAPIError::InvalidToken)));
}

#[test]
fn expired_token_is_rejected_as_expired() {
    let email = Email::parse("test@example.com".to_owned()).unwrap();
    let banned_token_store = HashsetBannedTokenStore::default();
    let token = auth_token_with_expiry(&email, secret(), 1000).unwrap();
    let result = validate_token_at(&banned_token_store, &token, secret(), 2000);
    assert!(matches!(result, Err(AuthAPIError::Expired)));
    // The natural-clock path agrees: the timestamp lies far in the past.
    let result = validate_token(&token, &banned_token_store, secret());
    assert!(matches!(result, Err(AuthAPIError::Expired)));
}

#[test]
fn revocation_short_circuits_even_an_unexpired_token() {
    let email = Email::parse("test@example.com".to_owned()).unwrap();
    let mut banned_token_store = HashsetBannedTokenStore::default();
    let token = auth_token_with_expiry(&email, secret(), u64::MAX).unwrap();
    banned_token_store.add_token(token.clone()).unwrap();
    let result = validate_token_at(&banned_token_store, &token, secret(), 2000);
    assert!(matches!(result, Err(AuthAPIError::Revoked)));
    // A revoked token that has also expired still reports `Revoked`.
    let stale = auth_token_with_expiry(&email, secret(), 1000).unwrap();
    banned_token_store.add_token(stale.clone()).unwrap();
    let result = validate_token_at(&banned_token_store, &stale, secret(), 2000);
    assert!(matches!(result, Err(AuthAPIError::Revoked)));
}

#[test]
fn token_claims_carry_the_exact_expiry() {
    let email = Email::parse("test@example.com".to_owned()).unwrap();
    let banned_token_store = HashsetBannedTokenStore::default();
    let token = auth_token_with_expiry(&email, secret(), 5000).unwrap();
    let claims = validate_token_at(&banned_token_store, &token, secret(), 4999).unwrap();
    assert_eq!(claims.sub, "test@example.com");
    assert_eq!(claims.exp, 5000);
    // At the expiry instant itself the token is already stale.
    let result = validate_token_at(&banned_token_store, &token, secret(), 5000);
    assert!(matches!(result, Err(AuthAPIError::Expired)));
}
