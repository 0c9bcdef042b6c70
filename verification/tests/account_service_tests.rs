use address_book::config::db::{migrate_and_config_db, Pool};
use address_book::constants::{
    MESSAGE_PROCESS_TOKEN_ERROR, MESSAGE_SIGNUP_FAILED, MESSAGE_SIGNUP_SUCCESS, MESSAGE_USERNAME_EXISTS, MESSAGE_USER_NOT_FOUND,
    STATUS_BAD_REQUEST, STATUS_INTERNAL_SERVER_ERROR, STATUS_UNAUTHORIZED,
};
use address_book::models::user::{LoginDto, LoginInfoDto, User, UserDto};
use address_book::models::user_token::{UserToken, ONE_WEEK};
use address_book::services::account_service::{login, logout, logout_at, logout_with_claims, signup};
use address_book::utils::token_utils::{decode_token, decode_token_at, verify_token};

const KEY: &[u8] = b"0110100110010110";

fn user_dto(username: &str, email: &str, password: &str) -> UserDto {
    UserDto { username: username.to_string(), password: password.to_string(), email: email.to_string() }
}

fn login_dto(name: &str, password: &str) -> LoginDto {
    LoginDto { username_or_eamil: name.to_string(), password: password.to_string() }
}

fn claims_of(token: &str) -> serde_json::Value {
    jsonwebtoken::decode::<serde_json::Value>(
        token,
        &jsonwebtoken::DecodingKey::from_secret(KEY),
        &jsonwebtoken::Validation::default(),
    )
    .unwrap()
    .claims
}

fn signed_up_pool() -> Pool {
    let mut pool = migrate_and_config_db(":memory:");
    signup(user_dto("admin", "admin@gmail.com", "123456"), &mut pool).unwrap();
    pool
}

#[test]
fn test_service_signup_ok() {
    let mut pool = migrate_and_config_db(":memory:");
    let user = UserDto {
        username: "test".to_string(),
        password: "test".to_string(),
        email: "12222@qq.com".to_string(),
    };
    let res = signup(user, &mut pool);
    assert_eq!(res.unwrap(), MESSAGE_SIGNUP_SUCCESS.to_string());
}

#[test]
fn test_signup_ok() {
    let mut pool = migrate_and_config_db(":memory:");
    let res = signup(user_dto("admin", "admin@gmail.com", "123456"), &mut pool);
    assert_eq!(res.unwrap(), MESSAGE_SIGNUP_SUCCESS);
}

#[test]
fn test_signup_duplicate_user() {
    let mut pool = signed_up_pool();
    let err = signup(user_dto("admin", "admin@gmail.com", "123456"), &mut pool).unwrap_err();
    assert_eq!(err.http_status, STATUS_BAD_REQUEST);
    assert_eq!(err.body.message, MESSAGE_USERNAME_EXISTS);
    assert_eq!(err.body.data, "");
}

#[test]
fn signup_stores_a_bcrypt_hash_of_the_password() {
    let pool = signed_up_pool();
    let user = User::find_by_username("admin", &pool).unwrap();
    assert_eq!(user.id, 1);
    assert_eq!(user.email, "admin@gmail.com");
    assert_eq!(user.created_at, user.updated_at);
    assert_eq!(user.login_session, "");
    assert_ne!(user.password, "123456");
    assert_eq!(user.password.len(), 60);
    assert!(bcrypt::verify("123456", &user.password).unwrap());
    assert!(!bcrypt::verify("654321", &user.password).unwrap());
}

#[test]
fn signup_with_a_taken_email_but_new_username_is_accepted() {
    let mut pool = signed_up_pool();
    assert!(signup(user_dto("other", "admin@gmail.com", "pw"), &mut pool).is_ok());
    assert_eq!(User::find_by_username("other", &pool).unwrap().id, 2);
}

#[test]
fn login_answers_a_bearer_token_for_a_new_session() {
    let mut pool = signed_up_pool();
    let res = login(login_dto("admin", "123456"), &mut pool, KEY).unwrap();
    assert_eq!(res.token_type, "bearer");
    let user = User::find_by_username("admin", &pool).unwrap();
    assert_eq!(user.login_session.len(), 36);
    let claims = claims_of(&res.token);
    assert_eq!(claims["user"], "admin");
    assert_eq!(claims["login_session"], user.login_session.as_str());
    let iat = claims["iat"].as_i64().unwrap();
    let exp = claims["exp"].as_i64().unwrap();
    assert_eq!(exp - iat, ONE_WEEK);
}

#[test]
fn login_by_email_works() {
    let mut pool = signed_up_pool();
    assert!(login(login_dto("admin@gmail.com", "123456"), &mut pool, KEY).is_ok());
}

#[test]
fn login_with_a_wrong_password_is_unauthorized() {
    let mut pool = signed_up_pool();
    let err = login(login_dto("admin", "wrong"), &mut pool, KEY).err().unwrap();
    assert_eq!(err.http_status, STATUS_UNAUTHORIZED);
    assert_eq!(err.body.message, MESSAGE_USER_NOT_FOUND);
    assert_eq!(User::find_by_username("admin", &pool).unwrap().login_session, "");
}

#[test]
fn login_of_an_unknown_user_is_unauthorized() {
    let mut pool = signed_up_pool();
    let err = login(login_dto("nobody", "123456"), &mut pool, KEY).err().unwrap();
    assert_eq!(err.http_status, STATUS_UNAUTHORIZED);
    assert_eq!(err.body.message, MESSAGE_USER_NOT_FOUND);
}

#[test]
fn a_new_login_replaces_the_session() {
    let mut pool = signed_up_pool();
    let first = login(login_dto("admin", "123456"), &mut pool, KEY).unwrap();
    let first_claims = decode_token(first.token.clone(), KEY).unwrap();
    assert!(verify_token(&first_claims, &pool).is_ok());
    let second = login(login_dto("admin", "123456"), &mut pool, KEY).unwrap();
    let second_claims = decode_token(second.token, KEY).unwrap();
    assert!(User::validate_login_session(&second_claims, &pool));
    assert!(!User::validate_login_session(&first_claims, &pool));
    assert_eq!(verify_token(&first_claims, &pool), Err(String::new()));
}

#[test]
fn decoded_token_carries_the_login() {
    let mut pool = signed_up_pool();
    let res = login(login_dto("admin", "123456"), &mut pool, KEY).unwrap();
    let claims = decode_token(res.token, KEY).unwrap();
    assert_eq!(claims.user, "admin");
    assert_eq!(claims.exp - claims.iat, ONE_WEEK);
    assert_eq!(verify_token(&claims, &pool), Ok("admin".to_string()));
}

#[test]
fn garbage_tokens_do_not_decode() {
    assert!(decode_token("not a token".to_string(), KEY).is_none());
    assert!(decode_token(String::new(), KEY).is_none());
}

#[test]
fn logout_with_a_bearer_header_empties_the_session() {
    let mut pool = signed_up_pool();
    let res = login(login_dto("admin", "123456"), &mut pool, KEY).unwrap();
    let claims = decode_token(res.token.clone(), KEY).unwrap();
    let header = format!("Bearer {}  ", res.token);
    assert!(logout(header.as_bytes(), &mut pool, KEY).is_ok());
    assert_eq!(User::find_by_username("admin", &pool).unwrap().login_session, "");
    assert!(!User::validate_login_session(&claims, &pool));
}

#[test]
fn logout_accepts_the_lower_case_scheme() {
    let mut pool = signed_up_pool();
    let res = login(login_dto("admin", "123456"), &mut pool, KEY).unwrap();
    let header = format!("bearer\t{}", res.token);
    assert!(logout(header.as_bytes(), &mut pool, KEY).is_ok());
}

#[test]
fn logout_refuses_bad_headers() {
    let mut pool = signed_up_pool();
    let res = login(login_dto("admin", "123456"), &mut pool, KEY).unwrap();
    for header in [
        format!("Basic {}", res.token),
        "Bearer".to_string(),
        "Bearer not-a-token".to_string(),
        format!("BEARER {}", res.token),
    ] {
        let err = logout(header.as_bytes(), &mut pool, KEY).unwrap_err();
        assert_eq!(err.http_status, STATUS_INTERNAL_SERVER_ERROR);
        assert_eq!(err.body.message, MESSAGE_PROCESS_TOKEN_ERROR);
    }
    let mut bytes = format!("Bearer {}", res.token).into_bytes();
    bytes.push(0x80);
    assert!(logout(&bytes, &mut pool, KEY).is_err());
    assert_eq!(User::find_by_username("admin", &pool).unwrap().login_session.len(), 36);
}

#[test]
fn logout_with_stale_claims_is_refused() {
    let mut pool = signed_up_pool();
    let stale = UserToken { iat: 0, exp: 0, user: "admin".to_string(), login_session: "old".to_string() };
    assert!(logout_with_claims(Some(stale), &mut pool).is_err());
    assert!(logout_with_claims(None, &mut pool).is_err());
}

#[test]
fn logout_of_a_fresh_user_with_the_empty_session_is_accepted() {
    let mut pool = signed_up_pool();
    let claims = UserToken { iat: 0, exp: 0, user: "admin".to_string(), login_session: String::new() };
    assert!(logout_with_claims(Some(claims), &mut pool).is_ok());
}

const OTHER_KEY: &[u8] = b"1001011001101001";

fn stamp() -> chrono::NaiveDateTime {
    chrono::NaiveDate::from_ymd_opt(2024, 1, 2).unwrap().and_hms_opt(3, 4, 5).unwrap()
}

#[test]
fn store_signup_with_a_hash_appends_the_user() {
    let mut pool = migrate_and_config_db(":memory:");
    let hash = bcrypt::hash("pw", 4).unwrap();
    let res = User::store_signup(user_dto("amy", "amy@x.org", "pw"), Some(hash.clone()), stamp(), &mut pool);
    assert_eq!(res, Ok(MESSAGE_SIGNUP_SUCCESS.to_string()));
    let user = User::find_by_username("amy", &pool).unwrap();
    assert_eq!(user.id, 1);
    assert_eq!(user.password, hash);
    assert_eq!(user.email, "amy@x.org");
    assert_eq!(user.created_at, stamp());
    assert_eq!(user.updated_at, stamp());
    assert_eq!(user.login_session, "");
}

#[test]
fn store_signup_without_a_hash_fails_and_stores_nothing() {
    let mut pool = migrate_and_config_db(":memory:");
    let res = User::store_signup(user_dto("amy", "amy@x.org", "pw"), None, stamp(), &mut pool);
    assert_eq!(res, Err(MESSAGE_SIGNUP_FAILED.to_string()));
    assert!(User::find_by_username("amy", &pool).is_err());
}

#[test]
fn store_signup_of_a_taken_name_is_refused() {
    let mut pool = signed_up_pool();
    let hash = bcrypt::hash("pw", 4).unwrap();
    let res = User::store_signup(user_dto("admin", "x@y.z", "pw"), Some(hash), stamp(), &mut pool);
    assert_eq!(res, Err(MESSAGE_USERNAME_EXISTS.to_string()));
    assert!(bcrypt::verify("123456", &User::find_by_username("admin", &pool).unwrap().password).unwrap());
}

#[test]
fn login_sessions_are_hyphenated_lower_case_v4_uuids() {
    let s = User::generate_login_session();
    let b = s.as_bytes();
    assert_eq!(b.len(), 36);
    for (i, c) in b.iter().enumerate() {
        if i == 8 || i == 13 || i == 18 || i == 23 {
            assert_eq!(*c, b'-');
        } else {
            assert!(c.is_ascii_digit() || (b'a'..=b'f').contains(c));
        }
    }
    assert_eq!(b[14], b'4');
    assert!(b"89ab".contains(&b[19]));
    assert_ne!(s, User::generate_login_session());
}

#[test]
fn seconds_of_truncates_nanoseconds() {
    assert_eq!(UserToken::seconds_of(1_700_000_000_999_999_999), 1_700_000_000);
    assert_eq!(UserToken::seconds_of(999_999_999), 0);
    assert_eq!(UserToken::seconds_of(-1_500_000_000), -1);
}

#[test]
fn the_same_claims_and_key_give_the_same_token() {
    let a = UserToken { iat: 10, exp: 10 + ONE_WEEK, user: "amy".to_string(), login_session: "s".to_string() };
    let b = UserToken { iat: 10, exp: 10 + ONE_WEEK, user: "amy".to_string(), login_session: "s".to_string() };
    assert_eq!(a.encode(KEY), b.encode(KEY));
    assert_eq!(a.encode(KEY).split('.').count(), 3);
    assert_ne!(a.encode(KEY), a.encode(OTHER_KEY));
}

#[test]
fn a_fresh_token_reads_back_under_its_key_only() {
    let info = LoginInfoDto { username: "amy".to_string(), login_session: "s-1".to_string() };
    let token = UserToken::generate_token(&info, KEY);
    let claims = decode_token(token.clone(), KEY).unwrap();
    assert_eq!(claims.user, "amy");
    assert_eq!(claims.login_session, "s-1");
    assert_eq!(claims.exp - claims.iat, ONE_WEEK);
    assert!(decode_token(token, OTHER_KEY).is_none());
}

#[test]
fn a_second_logout_with_the_same_header_is_refused() {
    let mut pool = signed_up_pool();
    let res = login(login_dto("admin", "123456"), &mut pool, KEY).unwrap();
    let header = format!("Bearer {}", res.token);
    assert!(logout(header.as_bytes(), &mut pool, KEY).is_ok());
    let err = logout(header.as_bytes(), &mut pool, KEY).unwrap_err();
    assert_eq!(err.http_status, STATUS_INTERNAL_SERVER_ERROR);
    assert_eq!(err.body.message, MESSAGE_PROCESS_TOKEN_ERROR);
}

#[test]
fn logout_with_a_token_under_another_key_is_refused() {
    let mut pool = signed_up_pool();
    let res = login(login_dto("admin", "123456"), &mut pool, KEY).unwrap();
    let header = format!("Bearer {}", res.token);
    assert!(logout(header.as_bytes(), &mut pool, OTHER_KEY).is_err());
    assert_eq!(User::find_by_username("admin", &pool).unwrap().login_session.len(), 36);
}

#[test]
fn a_token_is_accepted_until_a_minute_past_its_expiry() {
    let claims = UserToken { iat: 1_000, exp: 1_000 + ONE_WEEK, user: "amy".to_string(), login_session: "s".to_string() };
    let token = claims.encode(KEY);
    let last = 1_000 + ONE_WEEK + 60;
    let c = decode_token_at(token.clone(), KEY, last).unwrap();
    assert_eq!((c.iat, c.exp, c.user.as_str(), c.login_session.as_str()), (1_000, 1_000 + ONE_WEEK, "amy", "s"));
    assert!(decode_token_at(token.clone(), KEY, 0).is_some());
    assert!(decode_token_at(token.clone(), KEY, last + 1).is_none());
    assert!(decode_token_at(token.clone(), OTHER_KEY, 1_000).is_none());
    assert!(decode_token(token, KEY).is_none());
}

#[test]
fn a_token_with_a_negative_expiry_never_decodes() {
    let claims = UserToken { iat: -10, exp: -5, user: "amy".to_string(), login_session: "s".to_string() };
    assert!(decode_token_at(claims.encode(KEY), KEY, -100).is_none());
}

#[test]
fn logout_at_refuses_an_expired_token_and_changes_nothing() {
    let mut pool = signed_up_pool();
    let res = login(login_dto("admin", "123456"), &mut pool, KEY).unwrap();
    let claims = decode_token(res.token.clone(), KEY).unwrap();
    let header = format!("Bearer {}", res.token);
    let err = logout_at(header.as_bytes(), &mut pool, KEY, claims.exp + 61).unwrap_err();
    assert_eq!(err.http_status, STATUS_INTERNAL_SERVER_ERROR);
    assert_eq!(err.body.message, MESSAGE_PROCESS_TOKEN_ERROR);
    assert_eq!(User::find_by_username("admin", &pool).unwrap().login_session, claims.login_session);
    assert!(logout_at(header.as_bytes(), &mut pool, KEY, claims.exp + 60).is_ok());
    assert_eq!(User::find_by_username("admin", &pool).unwrap().login_session, "");
}
