//! Properties that relate several operations of the library.
use vstd::prelude::*;

use crate::config::db::{next_history_id, next_person_id, next_user_id, person_with_id, ConnectionView};
use crate::constants::{MESSAGE_SIGNUP_SUCCESS, MESSAGE_USERNAME_EXISTS};
use crate::models::person::{person_row, PersonDTOView};
use crate::models::user::{
    bcrypt_verify_result, lemma_named_unique, login_outcome, named, named_or_mailed, session_valid,
    signup_outcome, user_signed_up, LoginDtoView, LoginInfoView, UserDtoView,
};
use crate::error::ServiceError;
use crate::middleware::auth_middleware::{header_grants, header_token, request_passes};
use crate::models::user::{signup_stored, user_row};
use crate::models::user_token::{is_clock_reading, jwt_hs256_claims, login_token, whole_seconds, ONE_WEEK};
use crate::models::login_history::is_clock_time;
use crate::models::user::{is_hash_outcome, lemma_hash_outcome, signup_hashed};
use crate::middleware::auth_middleware::passes_without_token;
use crate::constants::MESSAGE_SIGNUP_FAILED;
use crate::services::account_service::{header_logout_outcome, is_token_error, logged_out, logout_claims, logout_token};
use crate::utils::header::{is_bearer_header, bearer_lower, bearer_upper, is_header_char, is_visible_ascii};
use crate::utils::token_utils::{fresh_claims, has_jws_shape, EXP_LEEWAY};
use crate::utils::search::{first_match, is_first_match, lemma_first_match_at, lemma_first_match_none, lemma_first_match_some};

verus! {

/// A sign-up that stored a row keeps the store well formed.
pub proof fn signup_keeps_store_well_formed(old: ConnectionView, dto: UserDtoView, new: ConnectionView)
    requires
        old.wf(),
        first_match(old.users, named(dto.username)) is None,
        user_signed_up(old, dto, new),
    ensures
        new.wf(),
{
    if let Some(id) = next_user_id(old.users) {
        let n = old.users.len() as int;
        assert forall|j: int| 0 <= j < n implies #[trigger] old.users[j].username != dto.username by {
            if old.users[j].username == dto.username {
                crate::utils::search::lemma_first_match_exists(old.users, named(dto.username), j);
            }
        }
        assert forall|i: int, j: int| 0 <= i < j < new.users.len() implies #[trigger] new.users[i].id
            < #[trigger] new.users[j].id by {
            if j == n && i < n - 1 {
                assert(old.users[i].id < old.users[n - 1].id);
            }
        }
        assert forall|i: int, j: int|
            0 <= i < new.users.len() && 0 <= j < new.users.len() && i != j implies #[trigger] new.users[i].username
            != #[trigger] new.users[j].username by {
            if i == n {
                assert(new.users[j] == old.users[j]);
            } else if j == n {
                assert(new.users[i] == old.users[i]);
            }
        }
    }
}

/// After a sign-up that stored a row, the username finds the new user: its
/// e-mail address, an empty session and a password hash that the signed-up
/// password matches.
pub proof fn signup_then_find_by_username(
    old: ConnectionView,
    dto: UserDtoView,
    res: Result<Seq<char>, Seq<char>>,
    new: ConnectionView,
)
    requires
        old.wf(),
        signup_outcome(old, dto, res, new),
        res is Ok,
        next_user_id(old.users) is Some,
    ensures
        res == Ok::<Seq<char>, Seq<char>>(MESSAGE_SIGNUP_SUCCESS@),
        first_match(new.users, named(dto.username)) == Some(old.users.len() as int),
        new.users[old.users.len() as int].username == dto.username,
        new.users[old.users.len() as int].email == dto.email,
        new.users[old.users.len() as int].login_session == Seq::<char>::empty(),
        bcrypt_verify_result(dto.password, new.users[old.users.len() as int].password) == Some(true),
{
    signup_keeps_store_well_formed(old, dto, new);
    lemma_named_unique(new, old.users.len() as int);
}

/// A username that signed up once is refused a second time, and the second
/// attempt changes nothing.
pub proof fn signup_twice_is_refused(
    old: ConnectionView,
    dto: UserDtoView,
    res: Result<Seq<char>, Seq<char>>,
    mid: ConnectionView,
    dto2: UserDtoView,
    res2: Result<Seq<char>, Seq<char>>,
    new: ConnectionView,
)
    requires
        old.wf(),
        signup_outcome(old, dto, res, mid),
        res is Ok,
        next_user_id(old.users) is Some,
        dto2.username == dto.username,
        signup_outcome(mid, dto2, res2, new),
    ensures
        res2 == Err::<Seq<char>, Seq<char>>(MESSAGE_USERNAME_EXISTS@),
        new == mid,
{
    signup_then_find_by_username(old, dto, res, mid);
}

/// A user who just signed up logs in with the same username and password,
/// where no other user has that username as e-mail address and a login
/// record can still be stored.
pub proof fn signup_then_login(
    old: ConnectionView,
    dto: UserDtoView,
    res: Result<Seq<char>, Seq<char>>,
    mid: ConnectionView,
    info: Option<LoginInfoView>,
    new: ConnectionView,
)
    requires
        old.wf(),
        signup_outcome(old, dto, res, mid),
        res is Ok,
        next_user_id(old.users) is Some,
        next_history_id(old.login_history) is Some,
        forall|j: int| 0 <= j < old.users.len() ==> #[trigger] old.users[j].email != dto.username,
        login_outcome(mid, LoginDtoView { username_or_eamil: dto.username, password: dto.password }, info, new),
    ensures
        info is Some,
        info->Some_0.username == dto.username,
        session_valid(new, dto.username, info->Some_0.login_session),
{
    signup_then_find_by_username(old, dto, res, mid);
    let n = old.users.len() as int;
    let p = named_or_mailed(dto.username);
    assert forall|j: int| 0 <= j < n implies !p(#[trigger] mid.users[j]) by {
        assert(mid.users[j] == old.users[j]);
        if old.users[j].username == dto.username {
            crate::utils::search::lemma_first_match_exists(old.users, named(dto.username), j);
        }
    }
    assert(is_first_match(mid.users, p, n));
    lemma_first_match_at(mid.users, p, n);
    assert(mid.login_history == old.login_history);
    let i = info->Some_0;
    assert(new.users[n].username == dto.username);
    assert(new.users[n].login_session == i.login_session);
}

/// A login opens a session that then validates, and no other session of that
/// user validates any more.
pub proof fn login_opens_session(
    old: ConnectionView,
    login: LoginDtoView,
    info: LoginInfoView,
    new: ConnectionView,
    other_session: Seq<char>,
)
    requires
        old.wf(),
        login_outcome(old, login, Some(info), new),
    ensures
        session_valid(new, info.username, info.login_session),
        session_valid(new, info.username, other_session) ==> other_session == info.login_session,
{
    let i = first_match(old.users, named_or_mailed(login.username_or_eamil))->Some_0;
    lemma_first_match_some(old.users, named_or_mailed(login.username_or_eamil));
    assert(new.users[i].username == info.username);
    if session_valid(new, info.username, other_session) {
        let k = choose|k: int|
            0 <= k < new.users.len() && #[trigger] new.users[k].username == info.username
                && new.users[k].login_session == other_session;
        if k != i {
            assert(new.users[k] == old.users[k]);
            assert(old.users[k].username != old.users[i].username);
        }
    }
}

/// A logout ends the session that it was given: that session no longer
/// validates (where it was not empty), and the user's session is empty.
pub proof fn logout_ends_session(old: ConnectionView, user: Seq<char>, session: Seq<char>, new: ConnectionView)
    requires
        old.wf(),
        session_valid(old, user, session),
        logged_out(old, user, new),
        session.len() > 0,
    ensures
        !session_valid(new, user, session),
        session_valid(new, user, Seq::empty()),
{
    let k = choose|k: int|
        0 <= k < old.users.len() && #[trigger] old.users[k].username == user && old.users[k].login_session
            == session;
    lemma_named_unique(old, k);
    assert(new.users[k].username == user);
    if session_valid(new, user, session) {
        let m = choose|m: int|
            0 <= m < new.users.len() && #[trigger] new.users[m].username == user && new.users[m].login_session
                == session;
        if m != k {
            assert(old.users[m].username != old.users[k].username);
        }
    }
}

/// A person stored under the next id is what that id then finds.
pub proof fn insert_then_find_person(old: ConnectionView, dto: PersonDTOView, new: ConnectionView)
    requires
        old.wf(),
        next_person_id(old.people) is Some,
        new == old.with_people(old.people.push(person_row(next_person_id(old.people)->Some_0, dto))),
    ensures
        first_match(new.people, person_with_id(next_person_id(old.people)->Some_0)) == Some(
            old.people.len() as int,
        ),
        new.people[old.people.len() as int] == person_row(next_person_id(old.people)->Some_0, dto),
{
    let id = next_person_id(old.people)->Some_0;
    let n = old.people.len() as int;
    assert forall|j: int| 0 <= j < n implies !person_with_id(id)(#[trigger] new.people[j]) by {
        assert(new.people[j] == old.people[j]);
        if j < n - 1 {
            assert(old.people[j].id < old.people[n - 1].id);
        }
    }
    assert(is_first_match(new.people, person_with_id(id), n));
    lemma_first_match_at(new.people, person_with_id(id), n);
}

/// After an update, the id finds the person with the new fields.
pub proof fn update_then_find_person(old: ConnectionView, id: i32, i: int, dto: PersonDTOView, new: ConnectionView)
    requires
        first_match(old.people, person_with_id(id)) == Some(i),
        new == old.with_people(old.people.update(i, person_row(id, dto))),
    ensures
        first_match(new.people, person_with_id(id)) == Some(i),
        new.people[i] == person_row(id, dto),
{
    lemma_first_match_some(old.people, person_with_id(id));
    assert forall|j: int| 0 <= j < i implies !person_with_id(id)(#[trigger] new.people[j]) by {
        assert(new.people[j] == old.people[j]);
    }
    assert(is_first_match(new.people, person_with_id(id), i));
    lemma_first_match_at(new.people, person_with_id(id), i);
}

/// After a delete, the id finds no one.
pub proof fn delete_then_find_person(old: ConnectionView, id: i32, i: int, new: ConnectionView)
    requires
        old.wf(),
        first_match(old.people, person_with_id(id)) == Some(i),
        new == old.with_people(old.people.remove(i)),
    ensures
        first_match(new.people, person_with_id(id)) is None,
{
    lemma_first_match_some(old.people, person_with_id(id));
    assert forall|j: int| 0 <= j < new.people.len() implies !person_with_id(id)(#[trigger] new.people[j]) by {
        if j < i {
            assert(new.people[j] == old.people[j]);
        } else {
            assert(new.people[j] == old.people[j + 1]);
            assert(old.people[i].id < old.people[j + 1].id);
        }
    }
    lemma_first_match_none(new.people, person_with_id(id));
}

/// On an empty store, a sign-up whose password was hashed succeeds and stores
/// the user under id 1 with that hash, created at the time of the sign-up.
pub proof fn signup_on_empty_store(
    dto: UserDtoView,
    hash: Seq<char>,
    now: chrono::NaiveDateTime,
    res: Result<Seq<char>, Seq<char>>,
    new: ConnectionView,
)
    requires
        signup_stored(ConnectionView::empty(), dto, Some(hash), now, res, new),
    ensures
        res == Ok::<Seq<char>, Seq<char>>(MESSAGE_SIGNUP_SUCCESS@),
        new.users == seq![user_row(1, dto.username, hash, dto.email, now)],
{
    let old = ConnectionView::empty();
    lemma_first_match_none(old.users, named(dto.username));
    assert(old.users.push(user_row(1, dto.username, hash, dto.email, now)) =~= seq![
        user_row(1, dto.username, hash, dto.email, now),
    ]);
}

/// A token that a login hands out at second `now` reads back, under the same
/// key, as the login's username and session, expiring one week after it was
/// issued; it is accepted up to a minute past that expiry and refused after.
pub proof fn login_token_reads_back(token: Seq<char>, info: LoginInfoView, key: Seq<u8>, now: i64, t: int)
    requires
        login_token(token, info, key, now),
        0 <= now + ONE_WEEK <= i64::MAX,
    ensures
        jwt_hs256_claims(token, key) == Some((now, (now + ONE_WEEK) as i64, info.username, info.login_session)),
        t <= now + ONE_WEEK + EXP_LEEWAY ==> fresh_claims(token, key, t) == jwt_hs256_claims(token, key),
        t > now + ONE_WEEK + EXP_LEEWAY ==> fresh_claims(token, key, t) is None,
{
}

/// A token that a login hands out, sent after the scheme of a bearer header,
/// lets a request through as long as the login's session is current and the
/// token has not expired (a week after it was issued, with a minute of
/// leeway).
pub proof fn login_token_grants(
    method: Seq<char>,
    path: Seq<char>,
    conn: ConnectionView,
    header: Seq<u8>,
    token: Seq<char>,
    info: LoginInfoView,
    key: Seq<u8>,
    now: i64,
    t: int,
)
    requires
        login_token(token, info, key, now),
        0 <= now + ONE_WEEK <= i64::MAX,
        session_valid(conn, info.username, info.login_session),
        is_bearer_header(header),
        header_token(header) == token,
        t <= now + ONE_WEEK + EXP_LEEWAY,
    ensures
        header_grants(conn, header, key, t),
        request_passes(method, path, Some(header), Some(conn), key, t),
{
    login_token_reads_back(token, info, key, now, t);
}

/// Two logins with the same username and session, issued in the same second
/// under the same key, get the same token.
pub proof fn one_second_one_token(t1: Seq<char>, t2: Seq<char>, a: LoginInfoView, b: LoginInfoView, key: Seq<u8>, now: i64)
    requires
        login_token(t1, a, key, now),
        login_token(t2, b, key, now),
        a.username == b.username,
        a.login_session == b.login_session,
    ensures
        t1 == t2,
{
}

/// After a logout, a second logout with the same header, at any time, is
/// refused and changes nothing (where the token's session was not empty).
pub proof fn logout_twice_is_refused(
    old: ConnectionView,
    header: Seq<u8>,
    key: Seq<u8>,
    now: int,
    res: Result<(), ServiceError>,
    new: ConnectionView,
    later: int,
    res2: Result<(), ServiceError>,
    last: ConnectionView,
)
    requires
        old.wf(),
        header_logout_outcome(old, header, key, now, res, new),
        res is Ok,
        logout_claims(header, key, now)->Some_0.3.len() > 0,
        header_logout_outcome(new, header, key, later, res2, last),
    ensures
        is_token_error(res2),
        last == new,
{
    let c = logout_claims(header, key, now)->Some_0;
    logout_ends_session(old, c.2, c.3, new);
}

/// Once a token is needed, "Bearer" and "bearer" are alike: at any second, a
/// header value grants a request with one spelling of the scheme exactly where
/// it does with the other, so the request passes with one exactly where it
/// passes with the other.
pub proof fn bearer_spellings_agree(
    method: Seq<char>,
    path: Seq<char>,
    pool: Option<ConnectionView>,
    conn: ConnectionView,
    rest: Seq<u8>,
    key: Seq<u8>,
    now: int,
)
    ensures
        header_grants(conn, bearer_upper() + rest, key, now) == header_grants(conn, bearer_lower() + rest, key, now),
        request_passes(method, path, Some(bearer_upper() + rest), pool, key, now) == request_passes(
            method,
            path,
            Some(bearer_lower() + rest),
            pool,
            key,
            now,
        ),
{
    let u = bearer_upper() + rest;
    let l = bearer_lower() + rest;
    assert(u.skip(6) =~= rest);
    assert(l.skip(6) =~= rest);
    assert(u.take(6) =~= bearer_upper());
    assert(l.take(6) =~= bearer_lower());
    assert forall|i: int| 0 <= i < 6 implies is_header_char(#[trigger] u[i]) && is_header_char(l[i]) by {}
    if is_visible_ascii(u) {
        assert forall|i: int| 0 <= i < l.len() implies is_header_char(#[trigger] l[i]) by {
            if i >= 6 {
                assert(l[i] == u[i]);
            }
        }
    }
    if is_visible_ascii(l) {
        assert forall|i: int| 0 <= i < u.len() implies is_header_char(#[trigger] u[i]) by {
            if i >= 6 {
                assert(l[i] == u[i]);
            }
        }
    }
    assert forall|c: ConnectionView| header_grants(c, u, key, now) == header_grants(c, l, key, now) by {}
}

/// The scheme alone, with no token after it, never lets a request through.
pub proof fn bare_scheme_is_refused(conn: ConnectionView, key: Seq<u8>, now: int)
    ensures
        !header_grants(conn, bearer_upper(), key, now),
        !header_grants(conn, bearer_lower(), key, now),
{
    assert(bearer_upper().skip(6) =~= Seq::<u8>::empty());
    assert(bearer_lower().skip(6) =~= Seq::<u8>::empty());
    assert(header_token(bearer_upper()) =~= Seq::<char>::empty());
    assert(header_token(bearer_lower()) =~= Seq::<char>::empty());
    assert(!has_jws_shape(Seq::<char>::empty()));
}

/// A token issued at one clock reading and checked at a later one is accepted,
/// with the login's claims, exactly while the later second is at most a week
/// and a minute past the second it was issued at; after that it is refused.
pub proof fn issued_token_lasts_a_week(
    token: Seq<char>,
    info: LoginInfoView,
    key: Seq<u8>,
    issued: i64,
    checked: i64,
    res: Option<(i64, i64, Seq<char>, Seq<char>)>,
)
    requires
        is_clock_reading(issued),
        is_clock_reading(checked),
        login_token(token, info, key, whole_seconds(issued) as i64),
        whole_seconds(issued) + ONE_WEEK >= 0,
        res == fresh_claims(token, key, whole_seconds(checked)),
    ensures
        whole_seconds(checked) <= whole_seconds(issued) + ONE_WEEK + EXP_LEEWAY ==> res == Some(
            (
                whole_seconds(issued) as i64,
                (whole_seconds(issued) + ONE_WEEK) as i64,
                info.username,
                info.login_session,
            ),
        ),
        whole_seconds(checked) > whole_seconds(issued) + ONE_WEEK + EXP_LEEWAY ==> res is None,
{
    assert(-9223372037 <= whole_seconds(issued) <= 9223372037);
}

/// Decoding at a clock reading gives claims only where the token carries them
/// and its `exp` is at most a minute before that second; a token whose `exp`
/// is older is refused.
pub proof fn decoded_token_is_current(
    token: Seq<char>,
    key: Seq<u8>,
    nanos: i64,
    res: Option<(i64, i64, Seq<char>, Seq<char>)>,
)
    requires
        is_clock_reading(nanos),
        res == fresh_claims(token, key, whole_seconds(nanos)),
    ensures
        res matches Some(c) ==> jwt_hs256_claims(token, key) == Some(c) && whole_seconds(nanos) - EXP_LEEWAY <= c.1,
        jwt_hs256_claims(token, key) matches Some(c) ==> (c.1 < whole_seconds(nanos) - EXP_LEEWAY ==> res is None),
        jwt_hs256_claims(token, key) matches Some(c) ==> (whole_seconds(nanos) - EXP_LEEWAY <= c.1 ==> res == Some(c)),
{
}

/// A logout at a clock reading with a bearer token whose `exp` is more than a
/// minute before that second is refused with the token error and changes
/// nothing, even where the token's session is current; with a current token
/// whose session is held, it succeeds and logs that user out.
pub proof fn logout_honours_expiry(
    old: ConnectionView,
    header: Seq<u8>,
    key: Seq<u8>,
    nanos: i64,
    res: Result<(), ServiceError>,
    new: ConnectionView,
)
    requires
        is_clock_reading(nanos),
        header_logout_outcome(old, header, key, whole_seconds(nanos), res, new),
    ensures
        jwt_hs256_claims(logout_token(header), key) matches Some(c) ==> (c.1 < whole_seconds(nanos) - EXP_LEEWAY
            ==> is_token_error(res) && new == old),
        jwt_hs256_claims(logout_token(header), key) matches Some(c) ==> (is_bearer_header(header) && whole_seconds(
            nanos,
        ) - EXP_LEEWAY <= c.1 && session_valid(old, c.2, c.3) ==> res is Ok && logged_out(old, c.2, new)),
{
}

/// A request that needs a token, decided at a clock reading, is refused where
/// the header's token has an `exp` more than a minute before that second,
/// whatever the store holds.
pub proof fn expired_token_is_refused(
    method: Seq<char>,
    path: Seq<char>,
    header: Seq<u8>,
    pool: Option<ConnectionView>,
    key: Seq<u8>,
    nanos: i64,
    pass: bool,
)
    requires
        is_clock_reading(nanos),
        pass == request_passes(method, path, Some(header), pool, key, whole_seconds(nanos)),
        !passes_without_token(method, path),
        jwt_hs256_claims(header_token(header), key) is Some,
        jwt_hs256_claims(header_token(header), key)->Some_0.1 < whole_seconds(nanos) - EXP_LEEWAY,
    ensures
        !pass,
{
}

/// A sign-up with a free username fails exactly where hashing the password
/// failed, and then stores nothing; otherwise it succeeds and (where an id is
/// left) appends the user with a hash that the password matches, stamped with
/// a clock time.
pub proof fn signup_fails_only_when_hashing_does(
    old: ConnectionView,
    dto: UserDtoView,
    res: Result<Seq<char>, Seq<char>>,
    new: ConnectionView,
)
    requires
        signup_hashed(old, dto, res, new),
        first_match(old.users, named(dto.username)) is None,
    ensures
        exists|hashed: Option<Seq<char>>| #[trigger] is_hash_outcome(dto.password, hashed) && (res == Err::<
            Seq<char>,
            Seq<char>,
        >(MESSAGE_SIGNUP_FAILED@) <==> hashed is None),
        res == Ok::<Seq<char>, Seq<char>>(MESSAGE_SIGNUP_SUCCESS@) || res == Err::<Seq<char>, Seq<char>>(
            MESSAGE_SIGNUP_FAILED@,
        ),
        res is Err ==> new == old,
        res is Ok && next_user_id(old.users) is Some ==> {
            &&& new.users.len() == old.users.len() + 1
            &&& new.users.last().username == dto.username
            &&& new.users.last().email == dto.email
            &&& new.users.last().login_session == Seq::<char>::empty()
            &&& new.users.last().created_at == new.users.last().updated_at
            &&& is_clock_time(new.users.last().created_at)
            &&& bcrypt_verify_result(dto.password, new.users.last().password) == Some(true)
        },
{
    let (hashed, now) = choose|hashed: Option<Seq<char>>, now: chrono::NaiveDateTime|
        #![trigger is_hash_outcome(dto.password, hashed), is_clock_time(now)]
        is_hash_outcome(dto.password, hashed) && is_clock_time(now) && signup_stored(old, dto, hashed, now, res, new);
    lemma_hash_outcome(dto.password, hashed);
    if let Some(id) = next_user_id(old.users) {
        if res is Ok {
            let h = hashed->Some_0;
            assert(new.users == old.users.push(user_row(id, dto.username, h, dto.email, now)));
            assert(new.users.last() == user_row(id, dto.username, h, dto.email, now));
        }
    }
}

} // verus!
