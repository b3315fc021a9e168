// Registration, login and token lifecycle, exercised against the real
// hashing and token crates.

use shorturl::auth::{bearer_token, Auth, TOKEN_VALIDITY_SECS};
use shorturl::config::Config;
use shorturl::errors::AppError;
use shorturl::store::UsersRepo;
use shorturl::users::UserService;

fn test_config() -> Config {
    Config {
        database_url: String::from("postgres://localhost/app"),
        database_charset: String::from("utf8mb4"),
        database_max_connections: 5,
        database_min_connections: 1,
        // "c2VjcmV0" is base64 for "secret"
        jwt_private_key: String::from("c2VjcmV0"),
        service_host: String::from("http://localhost:3000"),
        service_port: String::from("3000"),
    }
}

fn service() -> UserService {
    let auth = Auth::new(&test_config()).expect("secret must decode");
    UserService::new(auth)
}

const NOW: u64 = 1_700_000_000;

#[test]
fn register_then_login_returns_token() {
    let svc = service();
    let mut repo = UsersRepo::new();
    svc.register(
        &mut repo,
        &String::from("alice"),
        &String::from("secret123"),
        &String::from("00000000-0000-0000-0000-000000000001"),
        NOW,
    )
    .expect("register succeeds");
    let resp = svc
        .login(&repo, &String::from("alice"), &String::from("secret123"), NOW)
        .expect("login succeeds");
    assert!(!resp.token.is_empty());
}

#[test]
fn duplicate_username_is_storage_conflict() {
    let svc = service();
    let mut repo = UsersRepo::new();
    svc.register(
        &mut repo,
        &String::from("alice"),
        &String::from("secret123"),
        &String::from("id-1"),
        NOW,
    )
    .expect("first registration succeeds");
    let r = svc.register(
        &mut repo,
        &String::from("alice"),
        &String::from("otherpass"),
        &String::from("id-2"),
        NOW,
    );
    assert_eq!(r, Err(AppError::StorageConflict));
}

#[test]
fn reused_record_id_is_storage_failure() {
    let svc = service();
    let mut repo = UsersRepo::new();
    svc.register(&mut repo, &String::from("alice"), &String::from("pw1pw1"), &String::from("id-1"), NOW)
        .expect("first registration succeeds");
    let r = svc.register(&mut repo, &String::from("bob"), &String::from("pw2pw2"), &String::from("id-1"), NOW);
    assert_eq!(r, Err(AppError::StorageFailure));
}

#[test]
fn empty_fields_are_validation_errors() {
    let svc = service();
    let mut repo = UsersRepo::new();
    let r = svc.register(&mut repo, &String::from(""), &String::from("pw"), &String::from("id-1"), NOW);
    assert!(matches!(r, Err(AppError::ValidationError(_))));
    let r = svc.register(&mut repo, &String::from("alice"), &String::from(""), &String::from("id-1"), NOW);
    assert!(matches!(r, Err(AppError::ValidationError(_))));
    let r = svc.login(&repo, &String::from(""), &String::from("pw"), NOW);
    assert!(matches!(r, Err(AppError::ValidationError(_))));
    let r = svc.login(&repo, &String::from("alice"), &String::from(""), NOW);
    assert!(matches!(r, Err(AppError::ValidationError(_))));
}

#[test]
fn login_does_not_reveal_which_part_was_wrong() {
    let svc = service();
    let mut repo = UsersRepo::new();
    svc.register(&mut repo, &String::from("alice"), &String::from("secret123"), &String::from("id-1"), NOW)
        .expect("register succeeds");
    let unknown_user = svc.login(&repo, &String::from("mallory"), &String::from("secret123"), NOW);
    let wrong_password = svc.login(&repo, &String::from("alice"), &String::from("wrongpass"), NOW);
    assert_eq!(unknown_user, Err(AppError::InvalidCredentials));
    assert_eq!(wrong_password, Err(AppError::InvalidCredentials));
    assert_eq!(unknown_user, wrong_password);
}

#[test]
fn issued_token_verifies_until_expiry() {
    let auth = Auth::new(&test_config()).expect("secret must decode");
    let token = auth
        .generate_jwt_token(&String::from("user-42"), NOW)
        .expect("signing succeeds");
    let claims = auth.verify_token(&token, NOW).expect("fresh token verifies");
    assert_eq!(claims.user_id, "user-42");
    assert_eq!(claims.iat, NOW);
    assert_eq!(claims.exp, NOW + TOKEN_VALIDITY_SECS);

    // still valid one second before expiry
    let claims = auth.verify_token(&token, NOW + TOKEN_VALIDITY_SECS - 1);
    assert!(claims.is_ok());
    // rejected once the simulated clock reaches the expiry instant
    let late = auth.verify_token(&token, NOW + TOKEN_VALIDITY_SECS);
    assert_eq!(late, Err(AppError::InvalidToken));
    let later = auth.verify_token(&token, NOW + TOKEN_VALIDITY_SECS + 3600);
    assert_eq!(later, Err(AppError::InvalidToken));
}

#[test]
fn token_signed_with_other_secret_is_rejected() {
    let auth = Auth::new(&test_config()).expect("secret must decode");
    let mut other_config = test_config();
    // "b3RoZXI=" is base64 for "other"
    other_config.jwt_private_key = String::from("b3RoZXI=");
    let other = Auth::new(&other_config).expect("secret must decode");
    let token = other
        .generate_jwt_token(&String::from("user-42"), NOW)
        .expect("signing succeeds");
    assert_eq!(auth.verify_token(&token, NOW), Err(AppError::InvalidToken));
    assert_eq!(
        auth.verify_token(&String::from("not.a.token"), NOW),
        Err(AppError::InvalidToken)
    );
}

#[test]
fn bad_signing_secret_is_fatal() {
    let mut config = test_config();
    config.jwt_private_key = String::from("!!! not base64 !!!");
    let r = Auth::new(&config);
    assert!(matches!(r, Err(AppError::InternalError)));
}

#[test]
fn bearer_header_parsing() {
    assert_eq!(bearer_token("Bearer abc.def.ghi"), Some(String::from("abc.def.ghi")));
    assert_eq!(bearer_token("Bearer   spaced  "), Some(String::from("spaced")));
    assert_eq!(bearer_token("Bearer "), None);
    assert_eq!(bearer_token("Bearer    "), None);
    assert_eq!(bearer_token("Basic abc"), None);
    assert_eq!(bearer_token(""), None);
    assert_eq!(bearer_token("bearer abc"), None);
}

#[test]
fn malformed_stored_digest_is_internal_error() {
    // a digest that was not produced by the hasher cannot be parsed; the
    // fault is internal, not a credential mismatch
    let svc = service();
    let mut repo = UsersRepo::new();
    repo.register(
        &String::from("alice"),
        &String::from("not-a-digest"),
        &String::from("id-1"),
        NOW,
    )
    .expect("record inserts");
    let r = svc.login(&repo, &String::from("alice"), &String::from("whatever"), NOW);
    assert_eq!(r, Err(AppError::InternalError));
}
