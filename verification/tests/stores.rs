use auth_service::data_stores::BannedTokenStore;
use auth_service::data_stores::LoginAttemptId;
use auth_service::data_stores::TwoFACode;
use auth_service::data_stores::TwoFACodeStore;
use auth_service::data_stores::TwoFACodeStoreError;
use auth_service::data_stores::UserStore;
use auth_service::data_stores::UserStoreError;
use auth_service::data_stores::get_key;
use auth_service::hashmap_two_fa_code_store::HashmapTwoFACodeStore;
use auth_service::hashmap_user_store::HashmapUserStore;
use auth_service::hashset_banned_token_store::HashsetBannedTokenStore;
use auth_service::user::Email;
use auth_service::user::Password;
use auth_service::user::User;

#[test]
fn test_add_user() {
    let mut store = HashmapUserStore::default();
    let email = Email::parse("test@example.com".to_string()).unwrap();
    let password = Password::parse("password123".to_string()).unwrap();
    let user = User::new(email.duplicate(), password, true);
    assert_eq!(store.add_user(user), Ok(()));
    assert!(store.get_user(&email).is_ok());
}

#[test]
fn test_get_user() {
    let mut store = HashmapUserStore::default();
    let email = Email::parse("test@example.com".to_string()).unwrap();
    let password = Password::parse("password123".to_string()).unwrap();
    let user = User::new(email.duplicate(), password.duplicate(), true);
    store.add_user(user.duplicate()).unwrap();
    assert!(store.get_user(&email).unwrap() == user);
}

#[test]
fn test_validate_user() {
    let mut store = HashmapUserStore::default();
    let email = Email::parse("test@example.com".to_string()).unwrap();
    let password = Password::parse("password123".to_string()).unwrap();
    let user = User::new(email.duplicate(), password.duplicate(), true);
    store.add_user(user).unwrap();
    assert_eq!(store.validate_user(&email, &password), Ok(()));
    let wrong = Password::parse("wrong_password".to_string()).unwrap();
    assert_eq!(store.validate_user(&email, &wrong), Err(UserStoreError::InvalidCredentials));
}

#[test]
fn validate_user_reports_unknown_identity() {
    let store = HashmapUserStore::default();
    let email = Email::parse("missing@example.com".to_string()).unwrap();
    let password = Password::parse("password123".to_string()).unwrap();
    assert_eq!(store.validate_user(&email, &password), Err(UserStoreError::UserNotFound));
}

#[test]
fn duplicate_signup_is_a_collision() {
    let mut store = HashmapUserStore::default();
    let email = Email::parse("test@example.com".to_string()).unwrap();
    let password = Password::parse("password123".to_string()).unwrap();
    let user = User::new(email.duplicate(), password.duplicate(), false);
    assert_eq!(store.add_user(user.duplicate()), Ok(()));
    assert_eq!(store.add_user(user), Err(UserStoreError::UserAlreadyExists));
}

#[test]
fn test_store_and_check_tokens() {
    let mut store = HashsetBannedTokenStore::default();
    let token1 = "abc123".to_string();
    let token2 = "def456".to_string();
    store.add_token(token1.clone()).unwrap();
    store.add_token(token2.clone()).unwrap();
    assert_eq!(store.contains_token(&token1), Ok(true));
    assert_eq!(store.contains_token(&token2), Ok(true));
}

#[test]
fn test_check_non_existing_token() {
    let store = HashsetBannedTokenStore::default();
    let token1 = "abc123".to_string();
    assert_eq!(store.contains_token(&token1), Ok(false));
}

#[test]
fn test_add_code() {
    let mut store = HashmapTwoFACodeStore::default();
    let code = TwoFACode::default();
    let email = Email::parse("test@example.com".to_string()).unwrap();
    let login_attempt_id = LoginAttemptId::default();
    store.add_code(email.duplicate(), login_attempt_id.duplicate(), code.duplicate()).unwrap();
    assert!(store.get_code(&email).unwrap() == (login_attempt_id, code));
}

#[test]
fn test_remove_code() {
    let mut store = HashmapTwoFACodeStore::default();
    let code = TwoFACode::default();
    let email = Email::parse("test@example.com".to_string()).unwrap();
    let login_attempt_id = LoginAttemptId::default();
    store.add_code(email.duplicate(), login_attempt_id, code).unwrap();
    store.remove_code(&email).unwrap();
    assert!(matches!(
        store.get_code(&email),
        Err(TwoFACodeStoreError::LoginAttemptIdNotFound)
    ));
}

#[test]
fn test_get_code() {
    let mut store = HashmapTwoFACodeStore::default();
    let code = TwoFACode::default();
    let email = Email::parse("test@example.com".to_string()).unwrap();
    let login_attempt_id = LoginAttemptId::default();
    store.add_code(email.duplicate(), login_attempt_id.duplicate(), code.duplicate()).unwrap();
    assert!(store.get_code(&email).unwrap() == (login_attempt_id, code));
}

#[test]
fn later_put_supersedes_pending_entry() {
    let mut store = HashmapTwoFACodeStore::default();
    let email = Email::parse("test@example.com".to_string()).unwrap();
    let first_id = LoginAttemptId::default();
    let first_code = TwoFACode::from_value(111111);
    let second_id = LoginAttemptId::default();
    let second_code = TwoFACode::from_value(222222);
    store.add_code(email.duplicate(), first_id.duplicate(), first_code.duplicate()).unwrap();
    assert!(store.get_code(&email).unwrap() == (first_id.duplicate(), first_code));
    store.add_code(email.duplicate(), second_id.duplicate(), second_code.duplicate()).unwrap();
    assert!(store.get_code(&email).unwrap() == (second_id, second_code));
    // Entries for other identities are untouched.
    let other = Email::parse("other@example.com".to_string()).unwrap();
    assert!(matches!(
        store.get_code(&other),
        Err(TwoFACodeStoreError::LoginAttemptIdNotFound)
    ));
}

#[test]
fn storage_key_prefixes_the_identity() {
    let email = Email::parse("test@example.com".to_string()).unwrap();
    assert_eq!(get_key(&email), "two_fa_code:test@example.com");
}
