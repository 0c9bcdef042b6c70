use address_book::error::ServiceError;
use address_book::models::response::ResponseBody;
use address_book::models::user::User;
use address_book::utils::header::{
    bearer_token, bytes_from, has_bearer_prefix, is_header_text, trim_from, trimmed_bearer_token,
};
use address_book::utils::text::{starts_with, str_equal};

#[test]
fn service_error_has_empty_data() {
    let e = ServiceError::new(418, "teapot".to_string());
    assert_eq!(e.http_status, 418);
    assert_eq!(e.body.message, "teapot");
    assert_eq!(e.body.data, "");
}

#[test]
fn response_body_holds_message_and_data() {
    let b = ResponseBody::new("ok", 5);
    assert_eq!(b.message, "ok");
    assert_eq!(b.data, 5);
}

#[test]
fn header_text_is_visible_ascii_or_tab() {
    assert!(is_header_text(b"Bearer abc\t~"));
    assert!(is_header_text(b""));
    assert!(!is_header_text(b"a\nb"));
    assert!(!is_header_text(&[0x7f]));
    assert!(!is_header_text(&[0xc3, 0xa9]));
}

#[test]
fn bearer_prefix_has_two_spellings() {
    assert!(has_bearer_prefix(b"Bearer"));
    assert!(has_bearer_prefix(b"bearer x"));
    assert!(!has_bearer_prefix(b"BEARER x"));
    assert!(!has_bearer_prefix(b"Beare"));
}

#[test]
fn trimming_and_slicing() {
    assert_eq!(trim_from(b"Bearer  a b \t", 6), b"a b".to_vec());
    assert_eq!(trim_from(b"Bearer   ", 6), Vec::<u8>::new());
    assert_eq!(bytes_from(b"Bearer xy", 6), b" xy".to_vec());
    assert_eq!(bytes_from(b"Bearer", 6), Vec::<u8>::new());
}

#[test]
fn string_helpers() {
    assert!(starts_with("/api/ping", "/api"));
    assert!(starts_with("héllo", "hé"));
    assert!(!starts_with("/ap", "/api"));
    assert!(str_equal("OPTIONS", "OPTIONS"));
    assert!(!str_equal("OPTIONS", "options"));
}

#[test]
fn login_sessions_are_uuids() {
    let a = User::generate_login_session();
    let b = User::generate_login_session();
    assert_eq!(a.len(), 36);
    assert_ne!(a, b);
    assert_eq!(a.matches('-').count(), 4);
}

#[test]
fn bearer_tokens_from_header_values() {
    assert_eq!(bearer_token(b"Bearer abc"), Some(" abc".to_string()));
    assert_eq!(bearer_token(b"bearerabc"), Some("abc".to_string()));
    assert_eq!(bearer_token(b"Token abc"), None);
    assert_eq!(bearer_token(b"Bearer \x01"), None);
    assert_eq!(trimmed_bearer_token(b"Bearer  abc \t"), Some("abc".to_string()));
    assert_eq!(trimmed_bearer_token(b"Bearer"), Some(String::new()));
    assert_eq!(trimmed_bearer_token(&[66, 101, 97, 114, 101, 114, 32, 200]), None);
}
