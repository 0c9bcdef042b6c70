use vstd::prelude::*;

use crate::config::db::{ConnectionView, Pool};
use crate::constants::IGNORE_ROUTES;
use crate::models::user::session_valid;
use crate::models::user_token::{is_clock_reading, unix_time_nanos, whole_seconds, UserToken};
use crate::utils::header::{bearer_token, is_bearer_header};
use crate::utils::token_utils::{claims_hold_session, has_jws_shape};
use vstd::utf8::decode_utf8;
use crate::utils::text::{starts_with, str_equal};
use crate::utils::token_utils;

verus! {

/// `s` starts with `prefix`.
pub open spec fn has_prefix(s: Seq<char>, prefix: Seq<char>) -> bool {
    prefix.len() <= s.len() && s.take(prefix.len() as int) == prefix
}

/// The path lies under one of the routes that need no token.
pub open spec fn is_ignored_route(path: Seq<char>) -> bool {
    exists|i: int| 0 <= i < IGNORE_ROUTES@.len() && #[trigger] has_prefix(path, IGNORE_ROUTES@[i]@)
}

/// A request that passes without a token: a CORS preflight (`OPTIONS`) or one
/// to a route that needs no token.
pub open spec fn passes_without_token(method: Seq<char>, path: Seq<char>) -> bool {
    method == "OPTIONS"@ || is_ignored_route(path)
}

/// Whether the path lies under one of the routes that need no token.
pub fn is_ignored(path: &str) -> (res: bool)
    ensures
        res == is_ignored_route(path@),
{
    let mut i: usize = 0;
    while i < IGNORE_ROUTES.len()
        invariant
            i <= IGNORE_ROUTES@.len(),
            forall|j: int| 0 <= j < i ==> !#[trigger] has_prefix(path@, IGNORE_ROUTES@[j]@),
        decreases IGNORE_ROUTES.len() - i,
    {
        if starts_with(path, IGNORE_ROUTES[i]) {
            proof {
                assert(has_prefix(path@, IGNORE_ROUTES@[i as int]@));
            }
            return true;
        }
        i += 1;
    }
    false
}

/// The token that a bearer header value carries: what follows the six scheme
/// characters, as text.
pub open spec fn header_token(h: Seq<u8>) -> Seq<char> {
    decode_utf8(h.skip(6))
}

/// A bearer header value that lets a request needing a token through at
/// second `now`: it reads as text, starts with "Bearer" or "bearer", and its
/// token has the compact shape and carries, under `key`, claims that have not
/// expired at `now` and name a user holding the claimed session.
pub open spec fn header_grants(conn: ConnectionView, h: Seq<u8>, key: Seq<u8>, now: int) -> bool {
    &&& is_bearer_header(h)
    &&& has_jws_shape(header_token(h))
    &&& claims_hold_session(conn, header_token(h), key, now)
}

/// The bytes of an optional header value.
pub open spec fn header_view(h: Option<&[u8]>) -> Option<Seq<u8>> {
    match h {
        Some(h) => Some(h@),
        None => None,
    }
}

/// The contents of an optional store.
pub open spec fn store_view(pool: Option<&Pool>) -> Option<ConnectionView> {
    match pool {
        Some(p) => Some(p@),
        None => None,
    }
}

/// Whether a request with this method, path, `Authorization` header value and
/// store reaches the service at second `now`: without a token where none is
/// needed, and otherwise only with the store and a header value that grants
/// it.
pub open spec fn request_passes(
    method: Seq<char>,
    path: Seq<char>,
    authorization: Option<Seq<u8>>,
    pool: Option<ConnectionView>,
    key: Seq<u8>,
    now: int,
) -> bool {
    ||| passes_without_token(method, path)
    ||| (authorization matches Some(h) && pool matches Some(conn) && header_grants(conn, h, key, now))
}

/// The middleware factory that puts authentication in front of a service.
pub struct Authentication;

/// Authentication in front of the service `service`.
pub struct AuthenticationMiddleware<S> {
    pub service: S,
}

impl Authentication {
    /// Wraps `service` in the authentication middleware.
    pub fn new_transform<S>(&self, service: S) -> (res: AuthenticationMiddleware<S>)
        ensures
            res.service == service,
    {
        AuthenticationMiddleware { service }
    }
}

impl<S> AuthenticationMiddleware<S> {
    /// Whether decoded claims let a request through: some user holds the
    /// claims' username and login session.
    pub fn authorize_claims(&self, token: Option<UserToken>, pool: &Pool) -> (pass: bool)
        ensures
            pass == (token is Some && session_valid(
                pool@,
                token->Some_0.user@,
                token->Some_0.login_session@,
            )),
    {
        match token {
            Some(token) => token_utils::verify_token(&token, pool).is_ok(),
            None => false,
        }
    }

    /// Whether a request may reach the service at second `now`. Preflight
    /// requests and the routes that need no token pass. Any other request needs
    /// the store and an `Authorization` header that reads as text and starts
    /// with "Bearer" or "bearer"; what follows those six characters
    /// (`bearer_token`) is decoded as a token under the secret `key`, and the
    /// request passes exactly where the token has not expired at `now` and its
    /// claims name a user who holds the claimed session.
    pub fn call_at(
        &self,
        method: &str,
        path: &str,
        authorization: Option<&[u8]>,
        pool: Option<&Pool>,
        key: &[u8],
        now: i64,
    ) -> (pass: bool)
        ensures
            pass == request_passes(method@, path@, header_view(authorization), store_view(pool), key@, now as int),
    {
        let mut authenticate_pass = false;
        if str_equal(method, "OPTIONS") {
            authenticate_pass = true;
        } else {
            authenticate_pass = is_ignored(path);
        }
        if !authenticate_pass {
            if let Some(pool) = pool {
                if let Some(authen_header) = authorization {
                    if let Some(token) = bearer_token(authen_header) {
                        let ghost text = token@;
                        let claims = token_utils::decode_token_at(token, key, now);
                        proof {
                            assert(text == header_token(authen_header@));
                        }
                        if self.authorize_claims(claims, pool) {
                            authenticate_pass = true;
                        }
                    }
                }
            }
        }
        authenticate_pass
    }

    /// Whether a request may reach the service now: `call_at` at the second
    /// of the clock reading taken in this call.
    pub fn call(
        &self,
        method: &str,
        path: &str,
        authorization: Option<&[u8]>,
        pool: Option<&Pool>,
        key: &[u8],
    ) -> (pass: bool)
        ensures
            exists|nanos: i64| #[trigger] is_clock_reading(nanos) && pass == request_passes(
                method@,
                path@,
                header_view(authorization),
                store_view(pool),
                key@,
                whole_seconds(nanos),
            ),
            passes_without_token(method@, path@) ==> pass,
            !passes_without_token(method@, path@) && (authorization is None || pool is None) ==> !pass,
    {
        let nanos = unix_time_nanos();
        let now = UserToken::seconds_of(nanos);
        let pass = self.call_at(method, path, authorization, pool, key, now);
        proof {
            assert(pass == request_passes(
                method@,
                path@,
                header_view(authorization),
                store_view(pool),
                key@,
                whole_seconds(nanos),
            ));
        }
        pass
    }
}

} // verus!
