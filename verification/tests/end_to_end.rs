// The full flow as a transport would drive it: register, log in, present
// the bearer token on a protected operation, shorten, resolve, delete.

use shorturl::auth::Auth;
use shorturl::config::Config;
use shorturl::errors::AppError;
use shorturl::store::{UrlRepo, UsersRepo};
use shorturl::urls::UrlService;
use shorturl::users::UserService;

const NOW: u64 = 1_700_000_000;
const HOST: &str = "http://localhost:3000";

fn test_config() -> Config {
    Config {
        database_url: String::from("postgres://localhost/app"),
        database_charset: String::from("utf8mb4"),
        database_max_connections: 5,
        database_min_connections: 1,
        jwt_private_key: String::from("c2VjcmV0"),
        service_host: String::from(HOST),
        service_port: String::from("3000"),
    }
}

#[test]
fn register_login_shorten_resolve_delete() {
    let config = test_config();
    let auth = Auth::new(&config).expect("secret must decode");
    let users_svc = UserService::new(Auth::new(&config).expect("secret must decode"));
    let urls_svc = UrlService::new(&config);
    let mut users = UsersRepo::new();
    let mut links = UrlRepo::new();

    users_svc
        .register(&mut users, &String::from("alice"), &String::from("secret123"), &String::from("user-1"), NOW)
        .expect("register succeeds");
    let login = users_svc
        .login(&users, &String::from("alice"), &String::from("secret123"), NOW)
        .expect("login succeeds");

    // the transport authenticates the bearer token and learns the caller
    let claims = auth.verify_token(&login.token, NOW + 60).expect("token verifies");
    assert_eq!(claims.user_id, "user-1");

    let shortened = urls_svc
        .shorten_url(
            &users,
            &mut links,
            &String::from("https://example.com/page"),
            &claims.user_id,
            &String::from("link-1"),
            NOW + 60,
        )
        .expect("shorten succeeds");
    let hex = format!("{:x}", md5::compute("https://example.com/page"));
    let code = hex[..8].to_string();
    assert_eq!(shortened.short_url, format!("{}/{}", HOST, code));

    let resolved = urls_svc.enter_url(&links, &code).expect("resolve succeeds");
    assert_eq!(resolved.url, "https://example.com/page");

    urls_svc.delete_url(&mut links, &String::from("link-1")).expect("delete succeeds");
    assert!(matches!(
        urls_svc.enter_url(&links, &code),
        Err(AppError::NotFound(_))
    ));
}
