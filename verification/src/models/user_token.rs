use vstd::prelude::*;

use crate::models::user::{LoginInfoDto, LoginInfoView};
use crate::utils::token_utils::has_jws_shape;

verus! {

/// How long a token is valid: one week, in seconds.
pub const ONE_WEEK: i64 = 60 * 60 * 24 * 7;

/// The claims of a JSON web token.
#[derive(Debug)]
pub struct UserToken {
    pub iat: i64,
    pub exp: i64,
    pub user: String,
    pub login_session: String,
}

/// What `jsonwebtoken::encode` returns for the default header (HS256), the
/// claims `{"iat", "exp", "user", "login_session"}` in that order, and an
/// HMAC secret.
pub uninterp spec fn jwt_hs256_encoding(
    iat: i64,
    exp: i64,
    user: Seq<char>,
    login_session: Seq<char>,
    key: Seq<u8>,
) -> Seq<char>;

/// The claims `(iat, exp, user, login_session)` that `jsonwebtoken::decode`
/// reads from a token under `key` with the default validation, its
/// comparison of `exp` with the clock left out: `None` unless the token's
/// header names HS256, its signature checks out under `key`, and its payload
/// holds the four claims with those JSON types, `exp` not negative and no
/// `aud` claim.
pub uninterp spec fn jwt_hs256_claims(token: Seq<char>, key: Seq<u8>) -> Option<(i64, i64, Seq<char>, Seq<char>)>;

/// Calls `jsonwebtoken::encode` with the default header and the claims as a
/// JSON object; the token is a function of the claims and the key alone
/// (HMAC-SHA256 is deterministic), named `jwt_hs256_encoding`. As the crate's
/// source shows, the token names HS256, is signed under `key` and carries the
/// claims, joined as `header.payload.signature` (so it has the compact shape),
/// so that `jwt_hs256_claims` reads them back where `exp` is not
/// negative (a negative one fails the crate's required `exp`, which it reads
/// as an unsigned number). The crate's error comes
/// only for a key of another algorithm family, which an HMAC secret with HS256
/// is not.
#[verifier::external_body]
fn jwt_encode(iat: i64, exp: i64, user: &str, login_session: &str, key: &[u8]) -> (res: String)
    ensures
        res@ == jwt_hs256_encoding(iat, exp, user@, login_session@, key@),
        has_jws_shape(res@),
        exp >= 0 ==> jwt_hs256_claims(res@, key@) == Some((iat, exp, user@, login_session@)),
{
    let mut claims = serde_json::Map::new();
    claims.insert("iat".to_string(), serde_json::Value::from(iat));
    claims.insert("exp".to_string(), serde_json::Value::from(exp));
    claims.insert("user".to_string(), serde_json::Value::from(user));
    claims.insert("login_session".to_string(), serde_json::Value::from(login_session));
    jsonwebtoken::encode(
        &jsonwebtoken::Header::default(),
        &serde_json::Value::Object(claims),
        &jsonwebtoken::EncodingKey::from_secret(key),
    ).unwrap()
}

/// `nanos` is a reading of the system clock: a value that `unix_time_nanos`
/// returned. Any time can be read from the clock, so nothing is known of the
/// value; the definition is opaque so that, in a proof, only a value that the
/// clock call gave counts as a reading, and a time made up by the code does
/// not.
#[verifier::opaque]
pub closed spec fn is_clock_reading(nanos: i64) -> bool {
    true
}

/// Calls `chrono::Utc::now().timestamp_nanos()`: the current time in
/// nanoseconds since the epoch. Nothing is stated of its value; it is a clock
/// reading (`is_clock_reading`).
#[verifier::external_body]
#[allow(deprecated)]
pub(crate) fn unix_time_nanos() -> (res: i64)
    ensures
        is_clock_reading(res),
{
    chrono::Utc::now().timestamp_nanos()
}

/// The whole seconds of a time in nanoseconds, rounded toward zero.
pub open spec fn whole_seconds(nanos: i64) -> int {
    if nanos >= 0 {
        nanos / 1_000_000_000
    } else {
        -((-nanos) / 1_000_000_000)
    }
}

/// `token` is the token for this login issued at second `now`: signed under
/// `key`, carrying `iat = now`, `exp = now + ONE_WEEK`, the username and the
/// login session, which it reads back as where that `exp` is not negative.
pub open spec fn login_token(token: Seq<char>, login: LoginInfoView, key: Seq<u8>, now: i64) -> bool {
    &&& token == jwt_hs256_encoding(now, (now + ONE_WEEK) as i64, login.username, login.login_session, key)
    &&& has_jws_shape(token)
    &&& now + ONE_WEEK >= 0 ==> jwt_hs256_claims(token, key) == Some(
        (now, (now + ONE_WEEK) as i64, login.username, login.login_session),
    )
}

impl UserToken {
    /// The claims for a login at time `now` (seconds): issued now, expiring a week later.
    pub fn new(login: &LoginInfoDto, now: i64) -> (res: UserToken)
        requires
            now <= i64::MAX - ONE_WEEK,
        ensures
            res.iat == now,
            res.exp == now + ONE_WEEK,
            res.user@ == login.username@,
            res.login_session@ == login.login_session@,
    {
        UserToken {
            iat: now,
            exp: now + ONE_WEEK,
            user: login.username.clone(),
            login_session: login.login_session.clone(),
        }
    }

    /// The whole seconds of a time given in nanoseconds (rounded toward zero).
    pub fn seconds_of(nanos: i64) -> (res: i64)
        ensures
            res == whole_seconds(nanos),
    {
        nanos / 1_000_000_000
    }

    /// The signed token that carries these claims, under the secret `key`.
    pub fn encode(&self, key: &[u8]) -> (res: String)
        ensures
            res@ == jwt_hs256_encoding(self.iat, self.exp, self.user@, self.login_session@, key@),
            has_jws_shape(res@),
            self.exp >= 0 ==> jwt_hs256_claims(res@, key@) == Some(
                (self.iat, self.exp, self.user@, self.login_session@),
            ),
    {
        jwt_encode(self.iat, self.exp, self.user.as_str(), self.login_session.as_str(), key)
    }

    /// A token for this login, signed under the secret `key`, issued at the
    /// second of the clock reading taken in this call and valid for a week.
    pub fn generate_token(login: &LoginInfoDto, key: &[u8]) -> (res: String)
        ensures
            exists|nanos: i64| #[trigger] is_clock_reading(nanos) && login_token(res@, login@, key@, whole_seconds(nanos) as i64),
    {
        let nanos = unix_time_nanos();
        let now = Self::seconds_of(nanos);
        let pay_load = UserToken::new(login, now);
        let token = pay_load.encode(key);
        proof {
            assert(login_token(token@, login@, key@, whole_seconds(nanos) as i64));
        }
        token
    }
}

} // verus!
