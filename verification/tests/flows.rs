use auth_service::data_stores::TwoFACodeStore;
use auth_service::data_stores::UserStoreError;
use auth_service::email_client::MockEmailClient;
use auth_service::error::AuthAPIError;
use auth_service::hashmap_two_fa_code_store::HashmapTwoFACodeStore;
use auth_service::hashmap_user_store::HashmapUserStore;
use auth_service::hashed_user_store::HashedUserStore;
use auth_service::hashset_banned_token_store::HashsetBannedTokenStore;
use auth_service::login::login;
use auth_service::login::LoginRequest;
use auth_service::login::LoginResponse;
use auth_service::logout::logout;
use auth_service::password_hash::check_user_row;
use auth_service::password_hash::Users;
use auth_service::signup::signup;
use auth_service::signup::SignupRequest;
use auth_service::user::Email;
use auth_service::user::Password;
use auth_service::user::User;
use auth_service::verify_2fa::verify_2fa;
use auth_service::verify_2fa::Verify2FARequest;
use auth_service::verify_token::verify_token;
use auth_service::verify_token::VerifyRequest;

fn secret() -> &'static [u8] {
    "flow_test_secret".as_bytes()
}

#[test]
fn hashed_credential_verifies_and_rejects_other_passwords() {
    let email = Email::parse("test@example.com".to_string()).unwrap();
    let password = Password::parse("password123".to_string()).unwrap();
    let user = User::new(email, password.duplicate(), false);
    let row = Users::from_user(&user).unwrap();
    assert_eq!(row.email, "test@example.com");
    assert!(!row.requires_2fa);
    // The raw credential is never persisted.
    assert_ne!(row.password_hash, "password123");
    assert_eq!(check_user_row(&row, &password), Ok(()));
    let other = Password::parse("password124".to_string()).unwrap();
    assert_eq!(check_user_row(&row, &other), Err(UserStoreError::InvalidCredentials));
}

#[test]
fn malformed_stored_hash_is_an_operator_error() {
    let row = Users {
        email: "test@example.com".to_string(),
        password_hash: "not-a-phc-string".to_string(),
        requires_2fa: false,
    };
    let password = Password::parse("password123".to_string()).unwrap();
    assert_eq!(check_user_row(&row, &password), Err(UserStoreError::UnexpectedError));
}

#[test]
fn signup_login_verify_logout_round_trip() {
    let mut user_store = HashmapUserStore::default();
    let mut two_fa_code_store = HashmapTwoFACodeStore::default();
    let mut banned_token_store = HashsetBannedTokenStore::default();
    let email_client = MockEmailClient;

    let created = signup(
        &mut user_store,
        SignupRequest {
            email: "a@x.com".to_string(),
            password: "password123".to_string(),
            requires_2fa: false,
        },
    )
    .unwrap();
    assert_eq!(created.message, "User created successfully!");

    let (response, token) = login(
        &user_store,
        &mut two_fa_code_store,
        &email_client,
        LoginRequest { email: "a@x.com".to_string(), password: "password123".to_string() },
        secret(),
    )
    .unwrap();
    assert!(matches!(response, LoginResponse::RegularAuth));
    let token = token.unwrap();

    // The issued session verifies, and its subject is the identity.
    let request = VerifyRequest { token: token.clone() };
    assert_eq!(verify_token(&banned_token_store, &request, secret()), Ok(()));

    assert_eq!(logout(&mut banned_token_store, Some(token.clone()), secret()), Ok(()));

    // The same token is now revoked.
    assert!(matches!(
        verify_token(&banned_token_store, &request, secret()),
        Err(AuthAPIError::Revoked)
    ));
    // Logging out twice in a row fails: the cookie was consumed.
    assert!(matches!(
        logout(&mut banned_token_store, None, secret()),
        Err(AuthAPIError::MissingToken)
    ));
}

#[test]
fn login_with_wrong_password_or_unknown_identity_is_rejected_uniformly() {
    let mut user_store = HashmapUserStore::default();
    let mut two_fa_code_store = HashmapTwoFACodeStore::default();
    let email_client = MockEmailClient;
    signup(
        &mut user_store,
        SignupRequest {
            email: "a@x.com".to_string(),
            password: "password123".to_string(),
            requires_2fa: false,
        },
    )
    .unwrap();

    let wrong_password = login(
        &user_store,
        &mut two_fa_code_store,
        &email_client,
        LoginRequest { email: "a@x.com".to_string(), password: "password124".to_string() },
        secret(),
    );
    assert!(matches!(wrong_password, Err(AuthAPIError::IncorrectCredentials)));

    let unknown_identity = login(
        &user_store,
        &mut two_fa_code_store,
        &email_client,
        LoginRequest { email: "b@x.com".to_string(), password: "password123".to_string() },
        secret(),
    );
    assert!(matches!(unknown_identity, Err(AuthAPIError::IncorrectCredentials)));

    let malformed = login(
        &user_store,
        &mut two_fa_code_store,
        &email_client,
        LoginRequest { email: "not-an-email".to_string(), password: "password123".to_string() },
        secret(),
    );
    assert!(matches!(malformed, Err(AuthAPIError::InvalidCredentials)));
}

#[test]
fn second_factor_flow_accepts_the_right_code_once() {
    let mut user_store = HashmapUserStore::default();
    let mut two_fa_code_store = HashmapTwoFACodeStore::default();
    let mut banned_token_store = HashsetBannedTokenStore::default();
    let email_client = MockEmailClient;

    signup(
        &mut user_store,
        SignupRequest {
            email: "a@x.com".to_string(),
            password: "password123".to_string(),
            requires_2fa: true,
        },
    )
    .unwrap();

    let (response, token) = login(
        &user_store,
        &mut two_fa_code_store,
        &email_client,
        LoginRequest { email: "a@x.com".to_string(), password: "password123".to_string() },
        secret(),
    )
    .unwrap();
    assert!(token.is_none());
    let pending = match response {
        LoginResponse::TwoFactorAuth(p) => p,
        LoginResponse::RegularAuth => panic!("a second factor was required"),
    };
    assert_eq!(pending.message, "2FA required");

    // Recover the stored code, as the code's recipient would from the
    // notification channel.
    let email = Email::parse("a@x.com".to_string()).unwrap();
    let (stored_id, stored_code) = two_fa_code_store.get_code(&email).unwrap();
    assert_eq!(stored_id.as_str(), pending.login_attempt_id);
    let right_code = stored_code.as_str().to_string();
    let wrong_code = if right_code == "111111" { "222222" } else { "111111" };

    let rejected = verify_2fa(
        &mut two_fa_code_store,
        Verify2FARequest {
            email: "a@x.com".to_string(),
            login_attempt_id: pending.login_attempt_id.clone(),
            two_fa_code: wrong_code.to_string(),
        },
        secret(),
    );
    assert!(matches!(rejected, Err(AuthAPIError::IncorrectCredentials)));
    // A rejected submission does not consume the pending entry.
    assert!(two_fa_code_store.get_code(&email).is_ok());

    let session = verify_2fa(
        &mut two_fa_code_store,
        Verify2FARequest {
            email: "a@x.com".to_string(),
            login_attempt_id: pending.login_attempt_id.clone(),
            two_fa_code: right_code.clone(),
        },
        secret(),
    )
    .unwrap();
    let request = VerifyRequest { token: session };
    assert_eq!(verify_token(&banned_token_store, &request, secret()), Ok(()));

    // Exactly-once: the identical correct pair fails the second time.
    let replay = verify_2fa(
        &mut two_fa_code_store,
        Verify2FARequest {
            email: "a@x.com".to_string(),
            login_attempt_id: pending.login_attempt_id,
            two_fa_code: right_code,
        },
        secret(),
    );
    assert!(matches!(replay, Err(AuthAPIError::IncorrectCredentials)));
}

#[test]
fn second_factor_submission_rejects_malformed_fields() {
    let mut two_fa_code_store = HashmapTwoFACodeStore::default();
    let outcome = verify_2fa(
        &mut two_fa_code_store,
        Verify2FARequest {
            email: "a@x.com".to_string(),
            login_attempt_id: "not-a-uuid".to_string(),
            two_fa_code: "123456".to_string(),
        },
        secret(),
    );
    assert!(matches!(outcome, Err(AuthAPIError::InvalidCredentials)));
    let outcome = verify_2fa(
        &mut two_fa_code_store,
        Verify2FARequest {
            email: "a@x.com".to_string(),
            login_attempt_id: "550e8400-e29b-41d4-a716-446655440000".to_string(),
            two_fa_code: "12345".to_string(),
        },
        secret(),
    );
    assert!(matches!(outcome, Err(AuthAPIError::InvalidCredentials)));
}

#[test]
fn a_superseded_attempt_can_no_longer_succeed() {
    let mut user_store = HashmapUserStore::default();
    let mut two_fa_code_store = HashmapTwoFACodeStore::default();
    let email_client = MockEmailClient;
    signup(
        &mut user_store,
        SignupRequest {
            email: "a@x.com".to_string(),
            password: "password123".to_string(),
            requires_2fa: true,
        },
    )
    .unwrap();

    let first = match login(
        &user_store,
        &mut two_fa_code_store,
        &email_client,
        LoginRequest { email: "a@x.com".to_string(), password: "password123".to_string() },
        secret(),
    )
    .unwrap()
    {
        (LoginResponse::TwoFactorAuth(p), _) => p,
        _ => panic!("a second factor was required"),
    };
    let email = Email::parse("a@x.com".to_string()).unwrap();
    let (_, first_code) = two_fa_code_store.get_code(&email).unwrap();
    let first_code = first_code.as_str().to_string();

    // A second login supersedes the pending challenge.
    let _ = login(
        &user_store,
        &mut two_fa_code_store,
        &email_client,
        LoginRequest { email: "a@x.com".to_string(), password: "password123".to_string() },
        secret(),
    )
    .unwrap();

    let stale = verify_2fa(
        &mut two_fa_code_store,
        Verify2FARequest {
            email: "a@x.com".to_string(),
            login_attempt_id: first.login_attempt_id,
            two_fa_code: first_code,
        },
        secret(),
    );
    assert!(matches!(stale, Err(AuthAPIError::IncorrectCredentials)));
}

#[test]
fn short_password_creates_no_record() {
    let mut user_store = HashmapUserStore::default();
    let outcome = signup(
        &mut user_store,
        SignupRequest {
            email: "a@x.com".to_string(),
            password: "short".to_string(),
            requires_2fa: false,
        },
    );
    assert!(matches!(outcome, Err(AuthAPIError::InvalidCredentials)));
    let email = Email::parse("a@x.com".to_string()).unwrap();
    assert_eq!(
        match auth_service::data_stores::UserStore::get_user(&user_store, &email) {
            Err(e) => e,
            Ok(_) => panic!("no record should exist"),
        },
        UserStoreError::UserNotFound
    );
}

#[test]
fn duplicate_signup_reports_a_collision() {
    let mut user_store = HashmapUserStore::default();
    let request = SignupRequest {
        email: "a@x.com".to_string(),
        password: "password123".to_string(),
        requires_2fa: false,
    };
    signup(&mut user_store, request).unwrap();
    let again = signup(
        &mut user_store,
        SignupRequest {
            email: "a@x.com".to_string(),
            password: "password456".to_string(),
            requires_2fa: true,
        },
    );
    assert!(matches!(again, Err(AuthAPIError::UserAlreadyExists)));
}

#[test]
fn logout_rejects_an_unknown_token() {
    let mut banned_token_store = HashsetBannedTokenStore::default();
    let outcome = logout(&mut banned_token_store, Some("garbage".to_string()), secret());
    assert!(matches!(outcome, Err(AuthAPIError::InvalidToken)));
}

#[test]
fn error_messages_follow_the_taxonomy() {
    assert_eq!(AuthAPIError::UserAlreadyExists.message(), "User already exists");
    assert_eq!(AuthAPIError::InvalidCredentials.message(), "Invalid credentials");
    assert_eq!(AuthAPIError::IncorrectCredentials.message(), "Incorrect credentials");
    assert_eq!(AuthAPIError::MissingToken.message(), "Missing token");
    assert_eq!(AuthAPIError::InvalidToken.message(), "Invalid token");
    assert_eq!(AuthAPIError::UnexpectedError.message(), "Unexpected error");
}

#[test]
fn hashed_store_runs_the_whole_login_flow() {
    let mut user_store = HashedUserStore::default();
    let mut two_fa_code_store = HashmapTwoFACodeStore::default();
    let banned_token_store = HashsetBannedTokenStore::default();
    let email_client = MockEmailClient;

    signup(
        &mut user_store,
        SignupRequest {
            email: "a@x.com".to_string(),
            password: "password123".to_string(),
            requires_2fa: false,
        },
    )
    .unwrap();

    // The store never keeps the raw credential: the record's material is a
    // salted hash in PHC form.
    let email = Email::parse("a@x.com".to_string()).unwrap();
    let record = auth_service::data_stores::UserStore::get_user(&user_store, &email).unwrap();
    assert!(record.password.as_str() != "password123");
    assert!(record.password.as_str().starts_with("$argon2"));

    let wrong = login(
        &user_store,
        &mut two_fa_code_store,
        &email_client,
        LoginRequest { email: "a@x.com".to_string(), password: "password124".to_string() },
        secret(),
    );
    assert!(matches!(wrong, Err(AuthAPIError::IncorrectCredentials)));

    let (response, token) = login(
        &user_store,
        &mut two_fa_code_store,
        &email_client,
        LoginRequest { email: "a@x.com".to_string(), password: "password123".to_string() },
        secret(),
    )
    .unwrap();
    assert!(matches!(response, LoginResponse::RegularAuth));
    let request = VerifyRequest { token: token.unwrap() };
    assert_eq!(verify_token(&banned_token_store, &request, secret()), Ok(()));

    let again = signup(
        &mut user_store,
        SignupRequest {
            email: "a@x.com".to_string(),
            password: "password123".to_string(),
            requires_2fa: false,
        },
    );
    assert!(matches!(again, Err(AuthAPIError::UserAlreadyExists)));
}
