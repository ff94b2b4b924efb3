use axum_web::auth_error::AuthError;
use axum_web::service::AuthService;
use axum_web::store::CredentialStore;
use axum_web::user::User;

const TEST_ADMIN_USERNAME: &str = "admin";
const TEST_ADMIN_PASSWORD_HASH: &str = "7c4a8d09ca3762af61e59520943dc26494f8941b";

fn admin_user() -> User {
    User {
        id: "00000000-0000-0000-0000-000000000001".to_string(),
        username: TEST_ADMIN_USERNAME.to_string(),
        email: "admin@example.net".to_string(),
        pswd_hash: TEST_ADMIN_PASSWORD_HASH.to_string(),
        pswd_salt: "salt".to_string(),
        created_at: 0,
        updated_at: 0,
    }
}

fn service() -> AuthService {
    let mut store = CredentialStore::new();
    assert!(store.add_user(admin_user(), 100).is_some());
    AuthService::new(store, b"test-jwt-secret".to_vec())
}

#[test]
fn refresh_test() {
    let mut svc = service();
    let now = 1_700_000_000u64;

    let tokens = svc
        .login(
            &TEST_ADMIN_USERNAME.to_string(),
            &TEST_ADMIN_PASSWORD_HASH.to_string(),
            now,
        )
        .unwrap();
    let access_token = tokens.access_token;
    let refresh_token = tokens.refresh_token;

    // refresh tokens
    let rotated = svc.refresh(refresh_token, now + 10).unwrap();
    let access_token_new = rotated.access_token;
    let refresh_token_new = rotated.refresh_token;

    assert_ne!(access_token, access_token_new);
    assert_ne!(refresh_token, refresh_token_new);

    // the old refresh token is rejected on any subsequent use
    assert_eq!(
        svc.refresh(refresh_token, now + 20).unwrap_err(),
        AuthError::WrongCredentials
    );

    // access with the new token still passes the validator
    assert!(svc.validate_access(&access_token_new, now + 20).is_ok());
}

#[test]
fn refresh_logout_test() {
    let mut svc = service();
    let now = 1_700_000_000u64;

    let tokens = svc
        .login(
            &TEST_ADMIN_USERNAME.to_string(),
            &TEST_ADMIN_PASSWORD_HASH.to_string(),
            now,
        )
        .unwrap();
    let refresh_token = tokens.refresh_token;

    // refresh tokens
    let rotated = svc.refresh(refresh_token, now + 10).unwrap();
    let refresh_token_new = rotated.refresh_token;

    // try logout with old token
    assert_eq!(
        svc.logout(refresh_token).unwrap_err(),
        AuthError::WrongCredentials
    );

    // logout with new token
    assert!(svc.logout(refresh_token_new).is_ok());
}
