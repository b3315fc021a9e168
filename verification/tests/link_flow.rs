// Shortening, resolution and the link lifecycle, exercised against the
// real URL parser and digest crates.

use shorturl::config::Config;
use shorturl::errors::AppError;
use shorturl::store::{UrlRepo, UsersRepo};
use shorturl::urls::UrlService;

const NOW: u64 = 1_700_000_000;
const HOST: &str = "http://localhost:3000";

fn test_config() -> Config {
    Config {
        database_url: String::from("postgres://localhost/app"),
        database_charset: String::from("utf8mb4"),
        database_max_connections: 5,
        database_min_connections: 1,
        jwt_private_key: String::from("c2VjcmV0"),
        service_host: String::from(HOST),
        service_port: String::from("3000"),
    }
}

fn stores_with_owner(owner_id: &str) -> (UsersRepo, UrlRepo) {
    let mut users = UsersRepo::new();
    users
        .register(
            &String::from("alice"),
            &String::from("$argon2id$v=19$m=19456,t=2,p=1$c29tZXNhbHQ$placeholderdigest"),
            &String::from(owner_id),
            NOW,
        )
        .expect("owner record inserts");
    (users, UrlRepo::new())
}

fn expected_code(normalized: &str) -> String {
    let hex = format!("{:x}", md5::compute(normalized));
    hex[..8].to_string()
}

#[test]
fn shorten_returns_content_addressed_code() {
    let svc = UrlService::new(&test_config());
    let (users, mut links) = stores_with_owner("owner-1");
    let resp = svc
        .shorten_url(
            &users,
            &mut links,
            &String::from("https://example.com/page"),
            &String::from("owner-1"),
            &String::from("link-1"),
            NOW,
        )
        .expect("shorten succeeds");
    let code = expected_code("https://example.com/page");
    assert_eq!(code.len(), 8);
    assert!(code.chars().all(|c| c.is_ascii_hexdigit() && !c.is_ascii_uppercase()));
    assert_eq!(resp.url, "https://example.com/page");
    assert_eq!(resp.short_url, format!("{}/{}", HOST, code));
    assert_eq!(resp.id, "link-1");
    assert!(!resp.favourite);
    assert!(!resp.deleted);
    assert_eq!(resp.created_at, NOW);
}

#[test]
fn shorten_normalizes_before_hashing() {
    let svc = UrlService::new(&test_config());
    let (users, mut links) = stores_with_owner("owner-1");
    // the parser renders this with a trailing slash; the code is derived
    // from the normalized form
    let resp = svc
        .shorten_url(
            &users,
            &mut links,
            &String::from("https://example.com"),
            &String::from("owner-1"),
            &String::from("link-1"),
            NOW,
        )
        .expect("shorten succeeds");
    assert_eq!(resp.url, "https://example.com/");
    let code = expected_code("https://example.com/");
    assert_eq!(resp.short_url, format!("{}/{}", HOST, code));
}

#[test]
fn shorten_is_deterministic_across_owners() {
    let svc = UrlService::new(&test_config());
    let mut users = UsersRepo::new();
    users
        .register(&String::from("alice"), &String::from("digest-a"), &String::from("owner-1"), NOW)
        .expect("insert");
    users
        .register(&String::from("bob"), &String::from("digest-b"), &String::from("owner-2"), NOW)
        .expect("insert");
    let mut links = UrlRepo::new();
    let first = svc
        .shorten_url(
            &users,
            &mut links,
            &String::from("https://example.com/page"),
            &String::from("owner-1"),
            &String::from("link-1"),
            NOW,
        )
        .expect("shorten succeeds");
    let second = svc
        .shorten_url(
            &users,
            &mut links,
            &String::from("https://example.com/page"),
            &String::from("owner-2"),
            &String::from("link-2"),
            NOW + 5,
        )
        .expect("shorten succeeds");
    assert_eq!(first.short_url, second.short_url);
}

#[test]
fn shorten_rejects_invalid_url() {
    let svc = UrlService::new(&test_config());
    let (users, mut links) = stores_with_owner("owner-1");
    let r = svc.shorten_url(
        &users,
        &mut links,
        &String::from("not-a-url"),
        &String::from("owner-1"),
        &String::from("link-1"),
        NOW,
    );
    assert!(matches!(r, Err(AppError::ValidationError(_))));
}

#[test]
fn shorten_requires_known_owner() {
    let svc = UrlService::new(&test_config());
    let (users, mut links) = stores_with_owner("owner-1");
    let r = svc.shorten_url(
        &users,
        &mut links,
        &String::from("https://example.com/page"),
        &String::from("owner-unknown"),
        &String::from("link-1"),
        NOW,
    );
    assert!(matches!(r, Err(AppError::NotFound(_))));
}

#[test]
fn resolve_returns_original_target() {
    let svc = UrlService::new(&test_config());
    let (users, mut links) = stores_with_owner("owner-1");
    svc.shorten_url(
        &users,
        &mut links,
        &String::from("https://example.com/page"),
        &String::from("owner-1"),
        &String::from("link-1"),
        NOW,
    )
    .expect("shorten succeeds");
    let code = expected_code("https://example.com/page");
    let resp = svc.enter_url(&links, &code).expect("resolve succeeds");
    assert_eq!(resp.url, "https://example.com/page");
    // the resolved record carries the bare code, not the rendered form
    assert_eq!(resp.short_url, code);
    let missing = svc.enter_url(&links, &String::from("deadbeef"));
    assert!(matches!(missing, Err(AppError::NotFound(_))));
}

#[test]
fn delete_hides_link_and_stays_idempotent() {
    let svc = UrlService::new(&test_config());
    let (users, mut links) = stores_with_owner("owner-1");
    svc.shorten_url(
        &users,
        &mut links,
        &String::from("https://example.com/page"),
        &String::from("owner-1"),
        &String::from("link-1"),
        NOW,
    )
    .expect("shorten succeeds");
    let code = expected_code("https://example.com/page");

    let deleted = svc.delete_url(&mut links, &String::from("link-1")).expect("delete succeeds");
    assert!(deleted.deleted);
    assert!(matches!(
        svc.enter_url(&links, &code),
        Err(AppError::NotFound(_))
    ));

    // deleting again still succeeds, per the unconditional-update contract
    let again = svc.delete_url(&mut links, &String::from("link-1")).expect("repeat delete succeeds");
    assert!(again.deleted);

    let unknown = svc.delete_url(&mut links, &String::from("link-9"));
    assert!(matches!(unknown, Err(AppError::NotFound(_))));
}

#[test]
fn favourite_flag_round_trips() {
    let svc = UrlService::new(&test_config());
    let (users, mut links) = stores_with_owner("owner-1");
    let created = svc
        .shorten_url(
            &users,
            &mut links,
            &String::from("https://example.com/page"),
            &String::from("owner-1"),
            &String::from("link-1"),
            NOW,
        )
        .expect("shorten succeeds");
    assert!(!created.favourite);

    let on = svc.favourite_url(&mut links, &String::from("link-1"), true).expect("set succeeds");
    assert!(on.favourite);
    let off = svc.favourite_url(&mut links, &String::from("link-1"), false).expect("set succeeds");
    assert!(!off.favourite);

    let unknown = svc.favourite_url(&mut links, &String::from("link-9"), true);
    assert!(matches!(unknown, Err(AppError::NotFound(_))));
}

#[test]
fn listing_shows_only_live_links_of_owner() {
    let svc = UrlService::new(&test_config());
    let mut users = UsersRepo::new();
    users
        .register(&String::from("alice"), &String::from("digest-a"), &String::from("owner-1"), NOW)
        .expect("insert");
    users
        .register(&String::from("bob"), &String::from("digest-b"), &String::from("owner-2"), NOW)
        .expect("insert");
    let mut links = UrlRepo::new();
    svc.shorten_url(&users, &mut links, &String::from("https://example.com/a"), &String::from("owner-1"), &String::from("link-1"), NOW)
        .expect("shorten succeeds");
    svc.shorten_url(&users, &mut links, &String::from("https://example.com/b"), &String::from("owner-1"), &String::from("link-2"), NOW)
        .expect("shorten succeeds");
    svc.shorten_url(&users, &mut links, &String::from("https://example.com/c"), &String::from("owner-2"), &String::from("link-3"), NOW)
        .expect("shorten succeeds");
    svc.delete_url(&mut links, &String::from("link-2")).expect("delete succeeds");

    let mine = svc.get_user_urls(&links, &String::from("owner-1")).expect("listing succeeds");
    assert_eq!(mine.len(), 1);
    assert_eq!(mine[0].id, "link-1");
    assert_eq!(mine[0].url, "https://example.com/a");
    let code = expected_code("https://example.com/a");
    assert_eq!(mine[0].short_url, format!("{}/{}", HOST, code));

    let theirs = svc.get_user_urls(&links, &String::from("owner-2")).expect("listing succeeds");
    assert_eq!(theirs.len(), 1);
    assert_eq!(theirs[0].id, "link-3");
}

#[test]
fn colliding_codes_resolve_to_first_live_match() {
    // codes are content-derived and deliberately not unique; resolution
    // returns the first non-deleted match in storage order
    let svc = UrlService::new(&test_config());
    let mut links = UrlRepo::new();
    links
        .create(
            &String::from("https://first.example/"),
            &String::from("c0de c0de"),
            &String::from("owner-1"),
            &String::from("link-1"),
            NOW,
        )
        .expect("insert");
    links
        .create(
            &String::from("https://second.example/"),
            &String::from("c0de c0de"),
            &String::from("owner-2"),
            &String::from("link-2"),
            NOW,
        )
        .expect("insert");
    let resp = svc.enter_url(&links, &String::from("c0de c0de")).expect("resolve succeeds");
    assert_eq!(resp.url, "https://first.example/");

    // once the first is deleted, the second becomes the first live match
    svc.delete_url(&mut links, &String::from("link-1")).expect("delete succeeds");
    let resp = svc.enter_url(&links, &String::from("c0de c0de")).expect("resolve succeeds");
    assert_eq!(resp.url, "https://second.example/");
}
