use address_book::config::db::migrate_and_config_db;
use address_book::middleware::auth_middleware::{is_ignored, Authentication};
use address_book::models::user::{LoginDto, UserDto};
use address_book::services::account_service::{login, logout, signup};
use address_book::utils::token_utils::decode_token;

const KEY: &[u8] = b"0110100110010110";

#[test]
fn new_transform_wraps_the_service() {
    let mw = Authentication.new_transform(42u32);
    assert_eq!(mw.service, 42);
}

#[test]
fn preflight_and_open_routes_pass_without_a_token() {
    let mw = Authentication.new_transform(());
    assert!(mw.call("OPTIONS", "/api/address-book", None, None, KEY));
    assert!(mw.call("GET", "/api/ping", None, None, KEY));
    assert!(mw.call("POST", "/api/auth/signup", None, None, KEY));
    assert!(mw.call("POST", "/api/auth/login", None, None, KEY));
    assert!(mw.call("POST", "/api/auth/loginx", None, None, KEY));
    assert!(!mw.call("GET", "/api/address-book", None, None, KEY));
    assert!(!mw.call("GET", "/api/pin", None, None, KEY));
    assert!(!mw.call("options", "/api/address-book", None, None, KEY));
    assert!(is_ignored("/api/ping/extra"));
    assert!(!is_ignored("/x/api/ping"));
}

#[test]
fn a_token_after_the_scheme_lets_a_request_through() {
    let mut pool = migrate_and_config_db(":memory:");
    signup(
        UserDto { username: "u".to_string(), password: "p".to_string(), email: "e".to_string() },
        &mut pool,
    )
    .unwrap();
    let token = login(LoginDto { username_or_eamil: "u".to_string(), password: "p".to_string() }, &mut pool, KEY)
        .unwrap()
        .token;
    let mw = Authentication.new_transform(());
    let glued = format!("Bearer{}", token);
    assert!(mw.call("GET", "/api/address-book", Some(glued.as_bytes()), Some(&pool), KEY));
    let lower = format!("bearer{}", token);
    assert!(mw.call("GET", "/api/address-book", Some(lower.as_bytes()), Some(&pool), KEY));
    // The token is everything after the six scheme characters, untrimmed.
    let spaced = format!("Bearer {}", token);
    assert!(!mw.call("GET", "/api/address-book", Some(spaced.as_bytes()), Some(&pool), KEY));
    assert!(!mw.call("GET", "/api/address-book", Some(glued.as_bytes()), None, KEY));
    assert!(!mw.call("GET", "/api/address-book", Some(b"Bearerxyz"), Some(&pool), KEY));
}

#[test]
fn a_bare_scheme_or_a_foreign_token_is_refused() {
    let mut pool = migrate_and_config_db(":memory:");
    signup(
        UserDto { username: "u".to_string(), password: "p".to_string(), email: "e".to_string() },
        &mut pool,
    )
    .unwrap();
    let token = login(LoginDto { username_or_eamil: "u".to_string(), password: "p".to_string() }, &mut pool, KEY)
        .unwrap()
        .token;
    let mw = Authentication.new_transform(());
    assert!(!mw.call("GET", "/api/address-book", Some(b"Bearer"), Some(&pool), KEY));
    assert!(!mw.call("GET", "/api/address-book", Some(b"bearer"), Some(&pool), KEY));
    let glued = format!("Bearer{}", token);
    assert!(!mw.call("GET", "/api/address-book", Some(glued.as_bytes()), Some(&pool), b"1001011001101001"));
    assert!(mw.call("GET", "/api/address-book", Some(glued.as_bytes()), Some(&pool), KEY));
    logout(format!("Bearer {}", token).as_bytes(), &mut pool, KEY).unwrap();
    assert!(!mw.call("GET", "/api/address-book", Some(glued.as_bytes()), Some(&pool), KEY));
}

#[test]
fn call_at_decides_on_the_clock_second() {
    let mut pool = migrate_and_config_db(":memory:");
    signup(
        UserDto { username: "u".to_string(), password: "p".to_string(), email: "e".to_string() },
        &mut pool,
    )
    .unwrap();
    let token = login(LoginDto { username_or_eamil: "u".to_string(), password: "p".to_string() }, &mut pool, KEY)
        .unwrap()
        .token;
    let exp = decode_token(token.clone(), KEY).unwrap().exp;
    let mw = Authentication.new_transform(());
    for scheme in ["Bearer", "bearer"] {
        let h = format!("{}{}", scheme, token);
        assert!(mw.call_at("GET", "/api/address-book", Some(h.as_bytes()), Some(&pool), KEY, exp + 60));
        assert!(!mw.call_at("GET", "/api/address-book", Some(h.as_bytes()), Some(&pool), KEY, exp + 61));
    }
    assert!(mw.call_at("GET", "/api/ping", None, None, KEY, exp + 61));
}
