use vstd::prelude::*;

use crate::config::db::{ConnectionView, Pool};
use crate::constants::{
    MESSAGE_LOGIN_FAILED, MESSAGE_PROCESS_TOKEN_ERROR, MESSAGE_USER_NOT_FOUND, STATUS_BAD_REQUEST,
    STATUS_INTERNAL_SERVER_ERROR, STATUS_UNAUTHORIZED,
};
use crate::error::ServiceError;
use crate::models::user::{
    lemma_id_unique, login_outcome, named, session_valid, signup_hashed, signup_outcome, LoginDto,
    LoginInfoView, User, UserDto,
};
use crate::models::user_token::{is_clock_reading, login_token, unix_time_nanos, whole_seconds, UserToken};
use crate::utils::header::{is_bearer_header, trimmed, trimmed_bearer_token};
use crate::utils::token_utils::fresh_claims;
use vstd::utf8::decode_utf8;
use crate::utils::search::{first_match, lemma_first_match_exists, lemma_first_match_some};
use crate::utils::token_utils;

verus! {

/// The answer to a successful login.
#[derive(Debug)]
pub struct TokenBodyResponse {
    pub token: String,
    pub token_type: String,
}

/// The message of a sign-up answer, or of its error.
pub open spec fn signup_message(r: Result<String, ServiceError>) -> Result<Seq<char>, Seq<char>> {
    match r {
        Ok(m) => Ok(m@),
        Err(e) => Err(e.body.message@),
    }
}

/// `token` is the token for this login, signed under `key` and issued at the
/// second of a clock reading.
pub open spec fn token_for(token: Seq<char>, info: LoginInfoView, key: Seq<u8>) -> bool {
    exists|nanos: i64| #[trigger] is_clock_reading(nanos) && login_token(token, info, key, whole_seconds(nanos) as i64)
}

/// The token that a logout header carries: what follows the six scheme
/// characters, trimmed, as text.
pub open spec fn logout_token(header: Seq<u8>) -> Seq<char> {
    decode_utf8(trimmed(header.skip(6)))
}

/// The claims that a logout header value carries at second `now`: where it is
/// a bearer header, those of its trimmed token that have not expired at `now`.
pub open spec fn logout_claims(header: Seq<u8>, key: Seq<u8>, now: int) -> Option<(i64, i64, Seq<char>, Seq<char>)> {
    if is_bearer_header(header) {
        fresh_claims(logout_token(header), key, now)
    } else {
        None
    }
}

/// What a logout with this header value at second `now` answers and leaves in
/// the store: where the header's claims name a user who holds the claimed
/// session, success, and that user is logged out; otherwise the token error,
/// and the store is unchanged.
pub open spec fn header_logout_outcome(
    old: ConnectionView,
    header: Seq<u8>,
    key: Seq<u8>,
    now: int,
    res: Result<(), ServiceError>,
    new: ConnectionView,
) -> bool {
    match logout_claims(header, key, now) {
        Some(c) => if session_valid(old, c.2, c.3) {
            res is Ok && logged_out(old, c.2, new)
        } else {
            is_token_error(res) && new == old
        },
        None => is_token_error(res) && new == old,
    }
}

/// The store after logging out the user named `user`: that user's session is
/// emptied; unchanged where there is no such user.
pub open spec fn logged_out(old: ConnectionView, user: Seq<char>, new: ConnectionView) -> bool {
    match first_match(old.users, named(user)) {
        Some(i) => new == old.with_users(old.users.update(i, old.users[i].with_session(Seq::empty()))),
        None => new == old,
    }
}

/// The error that a refused logout answers.
pub open spec fn is_token_error(r: Result<(), ServiceError>) -> bool {
    r is Err && r->Err_0.is(STATUS_INTERNAL_SERVER_ERROR, MESSAGE_PROCESS_TOKEN_ERROR@)
}

/// Signs a user up; a refusal is a bad request with the reason.
pub fn signup(user: UserDto, pool: &mut Pool) -> (res: Result<String, ServiceError>)
    ensures
        signup_outcome(old(pool)@, user@, signup_message(res), final(pool)@),
        signup_hashed(old(pool)@, user@, signup_message(res), final(pool)@),
        res is Err ==> res->Err_0.http_status == STATUS_BAD_REQUEST && res->Err_0.body.data@
            == Seq::<char>::empty(),
{
    match User::signup(user, pool) {
        Ok(message) => Ok(message),
        Err(e) => Err(ServiceError::new(STATUS_BAD_REQUEST, e)),
    }
}

/// Logs a user in and answers a bearer token for the new session, signed under
/// the secret `key`; where the login fails, the answer is "unauthorized" and
/// the store is unchanged.
pub fn login(login_dto: LoginDto, pool: &mut Pool, key: &[u8]) -> (res: Result<TokenBodyResponse, ServiceError>)
    ensures
        match res {
            Ok(t) => {
                &&& t.token_type@ == "bearer"@
                &&& exists|info: LoginInfoView| #[trigger]
                    login_outcome(old(pool)@, login_dto@, Some(info), final(pool)@) && token_for(t.token@, info, key@)
            },
            Err(e) => {
                &&& e.is(STATUS_UNAUTHORIZED, MESSAGE_USER_NOT_FOUND@)
                &&& login_outcome(old(pool)@, login_dto@, None, final(pool)@)
            },
        },
{
    let ghost login_view = login_dto@;
    match User::login(login_dto, pool) {
        Some(login_info) => {
            let token = UserToken::generate_token(&login_info, key);
            let token_res = TokenBodyResponse { token, token_type: "bearer".to_owned() };
            if login_info.login_session.as_str().is_empty() {
                proof {
                    assert(false);
                }
                Err(ServiceError::new(STATUS_UNAUTHORIZED, MESSAGE_LOGIN_FAILED.to_owned()))
            } else {
                proof {
                    assert(login_outcome(old(pool)@, login_view, Some(login_info@), pool@));
                    assert(token_for(token_res.token@, login_info@, key@));
                }
                Ok(token_res)
            }
        },
        None => Err(ServiceError::new(STATUS_UNAUTHORIZED, MESSAGE_USER_NOT_FOUND.to_owned())),
    }
}

/// Logs out the user that a decoded token names, where the token's session is
/// current; otherwise a token error.
pub fn logout_with_claims(token: Option<UserToken>, pool: &mut Pool) -> (res: Result<(), ServiceError>)
    ensures
        match token {
            Some(c) => if session_valid(old(pool)@, c.user@, c.login_session@) {
                res is Ok && logged_out(old(pool)@, c.user@, final(pool)@)
            } else {
                is_token_error(res) && final(pool)@ == old(pool)@
            },
            None => is_token_error(res) && final(pool)@ == old(pool)@,
        },
{
    pool.check_wf();
    if let Some(token_data) = token {
        if let Ok(username) = token_utils::verify_token(&token_data, pool) {
            let ghost old_view = pool@;
            proof {
                let k = choose|k: int|
                    0 <= k < old_view.users.len() && #[trigger] old_view.users[k].username == username@
                        && old_view.users[k].login_session == token_data.login_session@;
                lemma_first_match_exists(old_view.users, named(username@), k);
                lemma_first_match_some(old_view.users, named(username@));
            }
            if let Ok(user) = User::find_by_username(username.as_str(), pool) {
                proof {
                    let i = first_match(old_view.users, named(username@))->Some_0;
                    lemma_id_unique(old_view, i);
                }
                User::logout(user.id, pool);
                return Ok(());
            }
        }
    }
    Err(ServiceError::new(STATUS_INTERNAL_SERVER_ERROR, MESSAGE_PROCESS_TOKEN_ERROR.to_owned()))
}

/// Logs out, at second `now`, the user whose bearer token the `Authorization`
/// header value carries. The header must read as text and start with "Bearer"
/// or "bearer"; the rest, trimmed (`trimmed_bearer_token`), is the token,
/// checked under the secret `key`. A logout succeeds exactly where the token
/// has not expired at `now` and its claims name a user who holds the claimed
/// session, and it logs out that user.
pub fn logout_at(authen_header: &[u8], pool: &mut Pool, key: &[u8], now: i64) -> (res: Result<(), ServiceError>)
    ensures
        header_logout_outcome(old(pool)@, authen_header@, key@, now as int, res, final(pool)@),
{
    if let Some(token) = trimmed_bearer_token(authen_header) {
        let ghost text = token@;
        let claims = token_utils::decode_token_at(token, key, now);
        proof {
            assert(text == logout_token(authen_header@));
        }
        return logout_with_claims(claims, pool);
    }
    Err(ServiceError::new(STATUS_INTERNAL_SERVER_ERROR, MESSAGE_PROCESS_TOKEN_ERROR.to_owned()))
}

/// Logs out the user whose bearer token the `Authorization` header value
/// carries: `logout_at` at the second of the clock reading taken in this call.
pub fn logout(authen_header: &[u8], pool: &mut Pool, key: &[u8]) -> (res: Result<(), ServiceError>)
    ensures
        exists|nanos: i64| #[trigger] is_clock_reading(nanos) && header_logout_outcome(
            old(pool)@,
            authen_header@,
            key@,
            whole_seconds(nanos),
            res,
            final(pool)@,
        ),
        !is_bearer_header(authen_header@) ==> is_token_error(res) && final(pool)@ == old(pool)@,
{
    let nanos = unix_time_nanos();
    let now = UserToken::seconds_of(nanos);
    let res = logout_at(authen_header, pool, key, now);
    proof {
        assert(header_logout_outcome(old(pool)@, authen_header@, key@, whole_seconds(nanos), res, pool@));
    }
    res
}

} // verus!
