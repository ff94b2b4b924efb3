use axum_web::auth_error::AuthError;
use axum_web::jwt::{issue_access_token, validate_access_token, JwtClaims};
use axum_web::service::{AuthService, ACCESS_TOKEN_TTL_SECS, REFRESH_TOKEN_TTL_SECS};
use axum_web::store::CredentialStore;
use axum_web::user::User;

const ADMIN_ID: &str = "00000000-0000-0000-0000-000000000001";

fn user(id: &str, name: &str, hash: &str) -> User {
    User {
        id: id.to_string(),
        username: name.to_string(),
        email: format!("{}@example.net", name),
        pswd_hash: hash.to_string(),
        pswd_salt: "salt".to_string(),
        created_at: 0,
        updated_at: 0,
    }
}

fn service() -> AuthService {
    let mut store = CredentialStore::new();
    assert!(store.add_user(user(ADMIN_ID, "admin", "hash-admin"), 100).is_some());
    assert!(store
        .add_user(user("00000000-0000-0000-0000-000000000002", "bob", "hash-bob"), 100)
        .is_some());
    AuthService::new(store, b"test-jwt-secret".to_vec())
}

#[test]
fn login_valid_credentials_issues_subject_token() {
    let mut svc = service();
    let now = 1_700_000_000u64;
    let tokens = svc
        .login(&"admin".to_string(), &"hash-admin".to_string(), now)
        .unwrap();
    // the access token speaks for the user's id
    let sub = svc.validate_access(&tokens.access_token, now + 1).unwrap();
    assert_eq!(sub, ADMIN_ID);
    // expiry is issued-at plus exactly one hour: the last valid instant is
    // one second before it
    assert!(svc
        .validate_access(&tokens.access_token, now + ACCESS_TOKEN_TTL_SECS - 1)
        .is_ok());
    assert_eq!(
        svc.validate_access(&tokens.access_token, now + ACCESS_TOKEN_TTL_SECS)
            .unwrap_err(),
        AuthError::WrongCredentials
    );
}

#[test]
fn login_wrong_password_issues_nothing() {
    let mut svc = service();
    let now = 1_700_000_000u64;
    assert_eq!(
        svc.login(&"admin".to_string(), &"wrong-hash".to_string(), now)
            .unwrap_err(),
        AuthError::WrongCredentials
    );
    assert_eq!(
        svc.login(&"nobody".to_string(), &"hash-admin".to_string(), now)
            .unwrap_err(),
        AuthError::WrongCredentials
    );
    // no refresh token was registered by either attempt
    assert_eq!(svc.registry.entries.len(), 0);
}

#[test]
fn logout_succeeds_once_then_fails() {
    let mut svc = service();
    let now = 1_700_000_000u64;
    let tokens = svc
        .login(&"admin".to_string(), &"hash-admin".to_string(), now)
        .unwrap();
    assert!(svc.logout(tokens.refresh_token).is_ok());
    assert_eq!(
        svc.logout(tokens.refresh_token).unwrap_err(),
        AuthError::WrongCredentials
    );
}

#[test]
fn refresh_race_yields_one_success() {
    let mut svc = service();
    let now = 1_700_000_000u64;
    let tokens = svc
        .login(&"admin".to_string(), &"hash-admin".to_string(), now)
        .unwrap();
    let first = svc.refresh(tokens.refresh_token, now + 5);
    let second = svc.refresh(tokens.refresh_token, now + 5);
    assert!(first.is_ok());
    assert_eq!(second.unwrap_err(), AuthError::WrongCredentials);
}

#[test]
fn expired_refresh_token_is_rejected() {
    let mut svc = service();
    let now = 1_700_000_000u64;
    let tokens = svc
        .login(&"admin".to_string(), &"hash-admin".to_string(), now)
        .unwrap();
    assert_eq!(
        svc.refresh(tokens.refresh_token, now + REFRESH_TOKEN_TTL_SECS)
            .unwrap_err(),
        AuthError::WrongCredentials
    );
    // an unexpired instant still works
    assert!(svc
        .refresh(tokens.refresh_token, now + REFRESH_TOKEN_TTL_SECS - 1)
        .is_ok());
}

#[test]
fn malformed_and_tampered_tokens_are_invalid() {
    let mut svc = service();
    let now = 1_700_000_000u64;
    assert_eq!(
        svc.validate_access(&"not-a-jwt".to_string(), now).unwrap_err(),
        AuthError::InvalidToken
    );
    let tokens = svc
        .login(&"admin".to_string(), &"hash-admin".to_string(), now)
        .unwrap();
    // flip the last character of the signature
    let mut tampered = tokens.access_token.clone();
    let last = tampered.pop().unwrap();
    tampered.push(if last == 'A' { 'B' } else { 'A' });
    assert_eq!(
        svc.validate_access(&tampered, now).unwrap_err(),
        AuthError::InvalidToken
    );
    // a token signed under another secret does not verify
    let other = AuthService::new(CredentialStore::new(), b"other-secret".to_vec());
    assert_eq!(
        other.validate_access(&tokens.access_token, now).unwrap_err(),
        AuthError::InvalidToken
    );
}

#[test]
fn end_to_end_login_access_expiry() {
    let mut svc = service();
    let now = 1_700_000_000u64;
    // login with the correct hash succeeds
    let tokens = svc
        .login(&"admin".to_string(), &"hash-admin".to_string(), now)
        .unwrap();
    // the protected route accepts the returned token
    assert_eq!(
        svc.validate_access(&tokens.access_token, now + 60).unwrap(),
        ADMIN_ID
    );
    // past expiry the same route rejects it
    assert_eq!(
        svc.validate_access(&tokens.access_token, now + ACCESS_TOKEN_TTL_SECS + 1)
            .unwrap_err(),
        AuthError::WrongCredentials
    );
}

#[test]
fn issued_claims_round_trip() {
    let secret = b"round-trip-secret".to_vec();
    let claims = JwtClaims { sub: "user-17".to_string(), iat: 5_000, exp: 8_600 };
    let token = issue_access_token(&claims, &secret).unwrap();
    // a JWT is three dot-separated parts, not the subject echoed back
    assert_eq!(token.matches('.').count(), 2);
    let sub = validate_access_token(&token, &secret, 8_599).unwrap();
    assert_eq!(sub, "user-17");
    assert_eq!(
        validate_access_token(&token, &secret, 8_600).unwrap_err(),
        AuthError::WrongCredentials
    );
}

#[test]
fn error_statuses_and_messages() {
    assert_eq!(AuthError::WrongCredentials.status_code(), 401);
    assert_eq!(AuthError::MissingCredentials.status_code(), 400);
    assert_eq!(AuthError::TokenCreation.status_code(), 500);
    assert_eq!(AuthError::InvalidToken.status_code(), 400);
    assert_eq!(AuthError::NotAcceptable.status_code(), 406);
    assert_eq!(AuthError::InternalServerError.status_code(), 500);
    assert_eq!(AuthError::WrongCredentials.error_message(), "Wrong credentials");
    assert_eq!(AuthError::MissingCredentials.error_message(), "Missing credentials");
    assert_eq!(AuthError::TokenCreation.error_message(), "Token creation error");
    assert_eq!(AuthError::InvalidToken.error_message(), "Invalid token");
    assert_eq!(AuthError::NotAcceptable.error_message(), "Not Acceptable");
    assert_eq!(AuthError::InternalServerError.error_message(), "Internal server error");
}

#[test]
fn login_now_uses_the_machine_clock() {
    let mut svc = service();
    let tokens = svc
        .login_now(&"admin".to_string(), &"hash-admin".to_string())
        .unwrap();
    // the token is fresh, so it validates against the same clock
    assert_eq!(svc.validate_access_now(&tokens.access_token).unwrap(), ADMIN_ID);
    assert_eq!(
        svc.login_now(&"admin".to_string(), &"bad".to_string()).unwrap_err(),
        AuthError::WrongCredentials
    );
    assert!(svc.refresh_now(tokens.refresh_token).is_ok());
    assert_eq!(
        svc.refresh_now(tokens.refresh_token).unwrap_err(),
        AuthError::WrongCredentials
    );
}
