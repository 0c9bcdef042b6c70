use vstd::prelude::*;

use crate::config::db::{ConnectionView, Pool};
use crate::models::user::{session_valid, User};
use crate::models::user_token::{is_clock_reading, jwt_hs256_claims, unix_time_nanos, whole_seconds, UserToken};

verus! {

/// The text has the compact JWS shape: at least two '.' separators.
pub open spec fn has_jws_shape(token: Seq<char>) -> bool {
    exists|i: int, j: int| 0 <= i < j < token.len() && #[trigger] token[i] == '.' && #[trigger] token[j] == '.'
}

/// The seconds of leeway that the expiry check allows.
pub const EXP_LEEWAY: i64 = 60;

/// The claims `(iat, exp, user, login_session)` of a token, by view.
pub open spec fn claims_view(t: Option<UserToken>) -> Option<(i64, i64, Seq<char>, Seq<char>)> {
    match t {
        Some(c) => Some((c.iat, c.exp, c.user@, c.login_session@)),
        None => None,
    }
}

/// The claims that `token` carries under `key`, where they have not expired
/// at second `now`: an `exp` earlier than `now` by more than the leeway
/// rejects them.
pub open spec fn fresh_claims(token: Seq<char>, key: Seq<u8>, now: int) -> Option<(i64, i64, Seq<char>, Seq<char>)> {
    match jwt_hs256_claims(token, key) {
        Some(c) => if now - EXP_LEEWAY <= c.1 {
            Some(c)
        } else {
            None
        },
        None => None,
    }
}

/// The claims that `token` carries under `key` at second `now` name a user who
/// holds the claimed login session.
pub open spec fn claims_hold_session(conn: ConnectionView, token: Seq<char>, key: Seq<u8>, now: int) -> bool {
    match fresh_claims(token, key, now) {
        Some(c) => session_valid(conn, c.2, c.3),
        None => false,
    }
}

/// Calls `jsonwebtoken::decode` with the default validation (HS256 signature,
/// a required `exp` claim) except that the crate's own comparison of `exp`
/// with the clock is switched off, and reads the claims as a `UserToken`;
/// `None` stands for the crate's error, and for claims that lack one of the
/// four fields or give it another JSON type. The result is then a function of
/// the token and the key alone, named `jwt_hs256_claims`. As the crate's source
/// shows, a token it accepts has the compact shape (it splits the token at its
/// last two '.' and fails where there are fewer). The payload is read as a
/// JSON object, so where a claim's key occurs twice the last one is taken.
#[verifier::external_body]
fn jwt_decode(token: &str, key: &[u8]) -> (res: Option<UserToken>)
    ensures
        claims_view(res) == jwt_hs256_claims(token@, key@),
        res is Some ==> has_jws_shape(token@),
{
    let mut validation = jsonwebtoken::Validation::default();
    validation.validate_exp = false;
    let data = jsonwebtoken::decode::<serde_json::Value>(
        token,
        &jsonwebtoken::DecodingKey::from_secret(key),
        &validation,
    ).ok()?;
    let c = data.claims;
    Some(UserToken {
        iat: c["iat"].as_i64()?,
        exp: c["exp"].as_i64()?,
        user: c["user"].as_str()?.to_string(),
        login_session: c["login_session"].as_str()?.to_string(),
    })
}

/// The claims of a token whose HS256 signature under the secret `key` checks
/// out and that has not expired at second `now` (with a minute of leeway).
pub fn decode_token_at(token: String, key: &[u8], now: i64) -> (res: Option<UserToken>)
    ensures
        claims_view(res) == fresh_claims(token@, key@, now as int),
        res is Some ==> has_jws_shape(token@),
{
    match jwt_decode(token.as_str(), key) {
        Some(c) => {
            if (now as i128) - (EXP_LEEWAY as i128) <= (c.exp as i128) {
                Some(c)
            } else {
                None
            }
        },
        None => None,
    }
}

/// The claims of a token whose signature under the secret `key` checks out and
/// that has not expired at the second of the clock reading taken in this call.
pub fn decode_token(token: String, key: &[u8]) -> (res: Option<UserToken>)
    ensures
        exists|nanos: i64| #[trigger] is_clock_reading(nanos) && claims_view(res) == fresh_claims(token@, key@, whole_seconds(nanos)),
        res is Some ==> has_jws_shape(token@),
{
    let nanos = unix_time_nanos();
    let now = UserToken::seconds_of(nanos);
    let res = decode_token_at(token, key, now);
    proof {
        assert(claims_view(res) == fresh_claims(token@, key@, whole_seconds(nanos)));
    }
    res
}

/// The token's username, where some user holds the token's login session.
pub fn verify_token(token_data: &UserToken, pool: &Pool) -> (res: Result<String, String>)
    ensures
        session_valid(pool@, token_data.user@, token_data.login_session@) ==> res is Ok
            && res->Ok_0@ == token_data.user@,
        !session_valid(pool@, token_data.user@, token_data.login_session@) ==> res is Err
            && res->Err_0@ == Seq::<char>::empty(),
{
    if User::validate_login_session(token_data, pool) {
        Ok(token_data.user.clone())
    } else {
        Err(String::new())
    }
}

} // verus!
