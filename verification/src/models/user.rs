use vstd::prelude::*;

use crate::config::db::{next_history_id, next_user_id, Connection, ConnectionView, QueryError, QueryResult};
use crate::constants::{MESSAGE_SIGNUP_FAILED, MESSAGE_SIGNUP_SUCCESS, MESSAGE_USERNAME_EXISTS};
use crate::models::login_history::{is_clock_time, utc_now_naive, LoginHistory};
use crate::models::user_token::UserToken;
use crate::utils::search::{first_match, lemma_first_match_exists, lemma_first_match_some};

verus! {

/// A row of the `users` table.
#[derive(Debug)]
pub struct User {
    pub id: i32,
    pub username: String,
    pub password: String,
    pub email: String,
    pub created_at: chrono::NaiveDateTime,
    pub updated_at: chrono::NaiveDateTime,
    pub login_session: String,
}

/// What a client sends to sign up.
#[derive(Debug)]
pub struct UserDto {
    pub username: String,
    pub password: String,
    pub email: String,
}

/// What a client sends to log in: a username or an e-mail address, and a password.
#[derive(Debug)]
pub struct LoginDto {
    pub username_or_eamil: String,
    pub password: String,
}

/// Who logged in, and the login session that the login opened.
#[derive(Debug)]
pub struct LoginInfoDto {
    pub username: String,
    pub login_session: String,
}

pub struct UserView {
    pub id: i32,
    pub username: Seq<char>,
    pub password: Seq<char>,
    pub email: Seq<char>,
    pub created_at: chrono::NaiveDateTime,
    pub updated_at: chrono::NaiveDateTime,
    pub login_session: Seq<char>,
}

pub struct UserDtoView {
    pub username: Seq<char>,
    pub password: Seq<char>,
    pub email: Seq<char>,
}

pub struct LoginDtoView {
    pub username_or_eamil: Seq<char>,
    pub password: Seq<char>,
}

pub struct LoginInfoView {
    pub username: Seq<char>,
    pub login_session: Seq<char>,
}

impl View for User {
    type V = UserView;

    open spec fn view(&self) -> UserView {
        UserView {
            id: self.id,
            username: self.username@,
            password: self.password@,
            email: self.email@,
            created_at: self.created_at,
            updated_at: self.updated_at,
            login_session: self.login_session@,
        }
    }
}

impl View for UserDto {
    type V = UserDtoView;

    open spec fn view(&self) -> UserDtoView {
        UserDtoView { username: self.username@, password: self.password@, email: self.email@ }
    }
}

impl View for LoginDto {
    type V = LoginDtoView;

    open spec fn view(&self) -> LoginDtoView {
        LoginDtoView { username_or_eamil: self.username_or_eamil@, password: self.password@ }
    }
}

impl View for LoginInfoDto {
    type V = LoginInfoView;

    open spec fn view(&self) -> LoginInfoView {
        LoginInfoView { username: self.username@, login_session: self.login_session@ }
    }
}

/// A new user's row: the given fields, created and last updated at `now`,
/// and an empty login session.
pub open spec fn user_row(
    id: i32,
    username: Seq<char>,
    password: Seq<char>,
    email: Seq<char>,
    now: chrono::NaiveDateTime,
) -> UserView {
    UserView { id, username, password, email, created_at: now, updated_at: now, login_session: Seq::empty() }
}

impl UserView {
    /// The same row with another login session.
    pub open spec fn with_session(self, session: Seq<char>) -> UserView {
        UserView { login_session: session, ..self }
    }
}

impl Clone for User {
    fn clone(&self) -> (res: User)
        ensures
            res@ == self@,
    {
        User {
            id: self.id,
            username: self.username.clone(),
            password: self.password.clone(),
            email: self.email.clone(),
            created_at: self.created_at,
            updated_at: self.updated_at,
            login_session: self.login_session.clone(),
        }
    }
}

/// A lower-case hexadecimal digit.
pub open spec fn is_lower_hex(c: char) -> bool {
    ('0' <= c && c <= '9') || ('a' <= c && c <= 'f')
}

/// The hyphenated lower-case text of a version 4 (random) UUID.
pub open spec fn is_uuid_v4_text(s: Seq<char>) -> bool {
    &&& s.len() == 36
    &&& forall|i: int|
        0 <= i < 36 ==> if i == 8 || i == 13 || i == 18 || i == 23 {
            #[trigger] s[i] == '-'
        } else {
            is_lower_hex(s[i])
        }
    &&& s[14] == '4'
    &&& (s[19] == '8' || s[19] == '9' || s[19] == 'a' || s[19] == 'b')
}

/// The rows that a username selects.
pub open spec fn named(username: Seq<char>) -> spec_fn(UserView) -> bool {
    |u: UserView| u.username == username
}

/// The rows that a login name selects: by username or by e-mail address.
pub open spec fn named_or_mailed(name: Seq<char>) -> spec_fn(UserView) -> bool {
    |u: UserView| u.username == name || u.email == name
}

/// The rows that an id selects.
pub open spec fn user_with_id(id: i32) -> spec_fn(UserView) -> bool {
    |u: UserView| u.id == id
}

/// What `bcrypt::verify` returns for a password and a stored hash: `None` where
/// the hash is not a bcrypt hash, else whether the password matches it.
pub uninterp spec fn bcrypt_verify_result(password: Seq<char>, hash: Seq<char>) -> Option<bool>;

/// `hashed` is what hashing `password` with bcrypt gave: a hash of it that
/// `is_password_hash` describes, or `None` where hashing failed. The
/// definition is opaque so that, in a proof, only an outcome that
/// `bcrypt_hash` gave counts, and a failure made up by the code does not.
#[verifier::opaque]
pub closed spec fn is_hash_outcome(password: Seq<char>, hashed: Option<Seq<char>>) -> bool {
    hashed matches Some(h) ==> is_password_hash(password, h)
}

/// `s` is a login session that `generate_login_session` drew: the text of a
/// random version 4 UUID. Which UUID is drawn is left open; the definition is
/// opaque so that, in a proof, only a session drawn by that call counts, and a
/// fixed text made up by the code does not.
#[verifier::opaque]
pub closed spec fn is_fresh_session(s: Seq<char>) -> bool {
    is_uuid_v4_text(s)
}

/// A hash that hashing gave is a hash of the password.
pub proof fn lemma_hash_outcome(password: Seq<char>, hashed: Option<Seq<char>>)
    requires
        is_hash_outcome(password, hashed),
    ensures
        hashed matches Some(h) ==> is_password_hash(password, h),
{
    reveal(is_hash_outcome);
}

/// Calls `bcrypt::hash` with the default cost. The hash is salted with fresh
/// OS randomness, so nothing is said of which string comes back; what is stated
/// is that, as the crate's source shows, the result is a well-formed bcrypt hash
/// of 60 characters (`bcrypt::verify` accepts it with any password) and that
/// `bcrypt::verify` with the hashed password answers `true`. `None` stands for the crate's error,
/// which comes only where the OS gives no randomness.
#[verifier::external_body]
pub(crate) fn bcrypt_hash(password: &str) -> (res: Option<String>)
    ensures
        res matches Some(h) ==> h@.len() == 60,
        res matches Some(h) ==> bcrypt_verify_result(password@, h@) == Some(true),
        res matches Some(h) ==> forall|p: Seq<char>| #[trigger] bcrypt_verify_result(p, h@) is Some,
        is_hash_outcome(password@, opt_view(res)),
{
    bcrypt::hash(password, bcrypt::DEFAULT_COST).ok()
}

/// Calls `bcrypt::verify`; its answer, with the crate's error mapped to `None`,
/// is named `bcrypt_verify_result`.
#[verifier::external_body]
pub(crate) fn bcrypt_verify(password: &str, hash: &str) -> (res: Option<bool>)
    ensures
        res == bcrypt_verify_result(password@, hash@),
{
    bcrypt::verify(password, hash).ok()
}

/// The views of a `Result` of strings.
pub open spec fn str_result(r: Result<String, String>) -> Result<Seq<char>, Seq<char>> {
    match r {
        Ok(s) => Ok(s@),
        Err(e) => Err(e@),
    }
}

/// The view of an optional login answer.
pub open spec fn info_view(r: Option<LoginInfoDto>) -> Option<LoginInfoView> {
    match r {
        Some(info) => Some(info@),
        None => None,
    }
}

/// The store after a sign-up that passed the username check and hashed the
/// password: a new row with the next id, the username, the e-mail address, an
/// empty session and a 60-character hash that `bcrypt::verify` accepts with the
/// password;
/// where no id is left, the store is unchanged.
pub open spec fn user_signed_up(old: ConnectionView, dto: UserDtoView, new: ConnectionView) -> bool {
    match next_user_id(old.users) {
        Some(id) => {
            &&& new.users.len() == old.users.len() + 1
            &&& new == old.with_users(
                old.users.push(
                    user_row(id, dto.username, new.users.last().password, dto.email, new.users.last().created_at),
                ),
            )
            &&& new.users.last().password.len() == 60
            &&& bcrypt_verify_result(dto.password, new.users.last().password) == Some(true)
        },
        None => new == old,
    }
}

/// `hash` is a 60-character bcrypt hash that `bcrypt::verify` accepts with any
/// password and with `password` answers `true`.
pub open spec fn is_password_hash(password: Seq<char>, hash: Seq<char>) -> bool {
    &&& hash.len() == 60
    &&& bcrypt_verify_result(password, hash) == Some(true)
    &&& forall|p: Seq<char>| #[trigger] bcrypt_verify_result(p, hash) is Some
}

/// The view of an optional string.
pub open spec fn opt_view(s: Option<String>) -> Option<Seq<char>> {
    match s {
        Some(s) => Some(s@),
        None => None,
    }
}

/// What `User::store_signup` answers and leaves in the store, given the
/// outcome of hashing the password.
pub open spec fn signup_stored(
    old: ConnectionView,
    dto: UserDtoView,
    hashed: Option<Seq<char>>,
    now: chrono::NaiveDateTime,
    res: Result<Seq<char>, Seq<char>>,
    new: ConnectionView,
) -> bool {
    if first_match(old.users, named(dto.username)) is Some {
        res == Err::<Seq<char>, Seq<char>>(MESSAGE_USERNAME_EXISTS@) && new == old
    } else {
        match hashed {
            None => res == Err::<Seq<char>, Seq<char>>(MESSAGE_SIGNUP_FAILED@) && new == old,
            Some(h) => {
                &&& res == Ok::<Seq<char>, Seq<char>>(MESSAGE_SIGNUP_SUCCESS@)
                &&& match next_user_id(old.users) {
                    Some(id) => new == old.with_users(old.users.push(user_row(id, dto.username, h, dto.email, now))),
                    None => new == old,
                }
            },
        }
    }
}

/// What a sign-up answers and leaves in the store, tied to the hashing: where
/// the username is free, the outcome is that of `signup_stored` for the
/// outcome of hashing the password and a clock time.
pub open spec fn signup_hashed(
    old: ConnectionView,
    dto: UserDtoView,
    res: Result<Seq<char>, Seq<char>>,
    new: ConnectionView,
) -> bool {
    first_match(old.users, named(dto.username)) is None ==> exists|hashed: Option<Seq<char>>, now: chrono::NaiveDateTime|
        #![trigger is_hash_outcome(dto.password, hashed), is_clock_time(now)]
        is_hash_outcome(dto.password, hashed) && is_clock_time(now) && signup_stored(old, dto, hashed, now, res, new)
}

/// What `User::signup` answers and leaves in the store.
pub open spec fn signup_outcome(
    old: ConnectionView,
    dto: UserDtoView,
    res: Result<Seq<char>, Seq<char>>,
    new: ConnectionView,
) -> bool {
    if first_match(old.users, named(dto.username)) is Some {
        res == Err::<Seq<char>, Seq<char>>(MESSAGE_USERNAME_EXISTS@) && new == old
    } else {
        match res {
            Ok(m) => m == MESSAGE_SIGNUP_SUCCESS@ && user_signed_up(old, dto, new),
            Err(m) => m == MESSAGE_SIGNUP_FAILED@ && new == old,
        }
    }
}

/// The password check of a login: a stored password and a bcrypt match.
pub open spec fn password_matches(password: Seq<char>, stored: Seq<char>) -> bool {
    stored.len() > 0 && bcrypt_verify_result(password, stored) == Some(true)
}

/// What `User::login` answers and leaves in the store. The first user whose
/// username or e-mail address is the login name is checked; where the password
/// matches and a login record can be stored, the record is appended, the user
/// gets a fresh session (the text of a random UUID), and the answer names the user and that
/// session. Otherwise the answer is `None` and the store is unchanged.
pub open spec fn login_outcome(
    old: ConnectionView,
    login: LoginDtoView,
    res: Option<LoginInfoView>,
    new: ConnectionView,
) -> bool {
    match first_match(old.users, named_or_mailed(login.username_or_eamil)) {
        None => res is None && new == old,
        Some(i) => {
            let u = old.users[i];
            if !password_matches(login.password, u.password) {
                res is None && new == old
            } else {
                match next_history_id(old.login_history) {
                    None => res is None && new == old,
                    Some(hid) => match res {
                        None => false,
                        Some(info) => {
                            &&& info.username == u.username
                            &&& is_uuid_v4_text(info.login_session)
                            &&& is_fresh_session(info.login_session)
                            &&& is_clock_time(new.login_history.last().login_timestamp)
                            &&& new.people == old.people
                            &&& new.users == old.users.update(i, u.with_session(info.login_session))
                            &&& new.login_history.len() == old.login_history.len() + 1
                            &&& new.login_history.drop_last() == old.login_history
                            &&& new.login_history.last().id == hid
                            &&& new.login_history.last().user_id == u.id
                        },
                    },
                }
            }
        },
    }
}

/// The store after setting the session of the first user named `username`;
/// unchanged where there is none.
pub open spec fn session_updated(
    old: ConnectionView,
    username: Seq<char>,
    session: Seq<char>,
    new: ConnectionView,
) -> bool {
    match first_match(old.users, named(username)) {
        Some(i) => new == old.with_users(old.users.update(i, old.users[i].with_session(session))),
        None => new == old,
    }
}

/// The store after logging out the user with id `user_id`: that user's
/// session is emptied; unchanged where there is no such user.
pub open spec fn logout_outcome(old: ConnectionView, user_id: i32, new: ConnectionView) -> bool {
    match first_match(old.users, user_with_id(user_id)) {
        Some(i) => new == old.with_users(old.users.update(i, old.users[i].with_session(Seq::empty()))),
        None => new == old,
    }
}

/// Some user has this username and this login session.
pub open spec fn session_valid(conn: ConnectionView, user: Seq<char>, session: Seq<char>) -> bool {
    exists|i: int|
        0 <= i < conn.users.len() && #[trigger] conn.users[i].username == user && conn.users[i].login_session
            == session
}

/// Usernames are unique, so the user at position `i` is the one its username selects.
pub proof fn lemma_named_unique(conn: ConnectionView, i: int)
    requires
        conn.wf(),
        0 <= i < conn.users.len(),
    ensures
        first_match(conn.users, named(conn.users[i].username)) == Some(i),
{
    assert forall|j: int| 0 <= j < conn.users.len() && j != i implies !named(conn.users[i].username)(
        #[trigger] conn.users[j],
    ) by {
        assert(conn.users[i].username != conn.users[j].username);
    }
    crate::utils::search::lemma_first_match_unique(conn.users, named(conn.users[i].username), i);
}

/// Ids are unique, so the user at position `i` is the one its id selects.
pub proof fn lemma_id_unique(conn: ConnectionView, i: int)
    requires
        conn.wf(),
        0 <= i < conn.users.len(),
    ensures
        first_match(conn.users, user_with_id(conn.users[i].id)) == Some(i),
{
    assert forall|j: int| 0 <= j < conn.users.len() && j != i implies !user_with_id(conn.users[i].id)(
        #[trigger] conn.users[j],
    ) by {
        if j < i {
            assert(conn.users[j].id < conn.users[i].id);
        } else {
            assert(conn.users[i].id < conn.users[j].id);
        }
    }
    crate::utils::search::lemma_first_match_unique(conn.users, user_with_id(conn.users[i].id), i);
}

impl User {
    /// Stores a new user with a bcrypt hash of the password, unless the
    /// username is taken. Where it is not, the answer and the store are those
    /// of `store_signup` on the outcome of hashing the password and the time of
    /// the clock, both taken in this call.
    pub fn signup(user: UserDto, conn: &mut Connection) -> (res: Result<String, String>)
        ensures
            signup_outcome(old(conn)@, user@, str_result(res), final(conn)@),
            signup_hashed(old(conn)@, user@, str_result(res), final(conn)@),
    {
        if Self::find_by_username(user.username.as_str(), conn).is_ok() {
            return Err(MESSAGE_USERNAME_EXISTS.to_owned());
        }
        let hashed = bcrypt_hash(user.password.as_str());
        let now = utc_now_naive();
        let ghost dto = user@;
        let ghost old_view = conn@;
        let res = Self::store_signup(user, hashed, now, conn);
        proof {
            assert(is_hash_outcome(dto.password, opt_view(hashed)) && is_clock_time(now));
        }
        res
    }

    /// Stores a sign-up whose password hashing gave `hashed` (`None` where it
    /// failed), at time `now`: refused where the username is taken, failed
    /// where there is no hash, and otherwise answered with success after the
    /// user is appended with that hash, created and updated at `now` (where an
    /// id is left).
    pub fn store_signup(
        user: UserDto,
        hashed: Option<String>,
        now: chrono::NaiveDateTime,
        conn: &mut Connection,
    ) -> (res: Result<String, String>)
        requires
            hashed is Some ==> is_password_hash(user.password@, hashed->Some_0@),
        ensures
            signup_stored(old(conn)@, user@, opt_view(hashed), now, str_result(res), final(conn)@),
    {
        if Self::find_by_username(user.username.as_str(), conn).is_ok() {
            return Err(MESSAGE_USERNAME_EXISTS.to_owned());
        }
        match hashed {
            None => Err(MESSAGE_SIGNUP_FAILED.to_owned()),
            Some(hashed_pwd) => {
                let _ = conn.insert_user(user.username, hashed_pwd, user.email, now);
                Ok(MESSAGE_SIGNUP_SUCCESS.to_owned())
            },
        }
    }

    /// Checks a login name and password; on success records the login and
    /// opens a new session.
    pub fn login(login: LoginDto, conn: &mut Connection) -> (res: Option<LoginInfoDto>)
        ensures
            login_outcome(old(conn)@, login@, info_view(res), final(conn)@),
    {
        conn.check_wf();
        let target = login.username_or_eamil.clone();
        let test = (|u: &User| -> (b: bool)
                ensures
                    b == (u.username@ == target@ || u.email@ == target@),
                { u.username == target || u.email == target });
        let pos = conn.find_user(Ghost(named_or_mailed(login.username_or_eamil@)), test);
        let i = match pos {
            None => return None,
            Some(i) => i,
        };
        let user = conn.user_at(i);
        let verified = match bcrypt_verify(login.password.as_str(), user.password.as_str()) {
            Some(b) => b,
            None => false,
        };
        if user.password.as_str().is_empty() || !verified {
            return None;
        }
        let ghost before = conn@;
        proof {
            assert(before.users[i as int].username == user.username@);
            lemma_named_unique(before, i as int);
        }
        let record = match LoginHistory::create(user.username.as_str(), conn) {
            Some(record) => record,
            None => {
                proof {
                    assert(false);
                }
                return None;
            },
        };
        let ghost rec = record;
        if LoginHistory::save_login_history(record, conn).is_err() {
            return None;
        }
        let ghost saved = conn@;
        let login_session_str = Self::generate_login_session();
        proof {
            assert(conn@.users == before.users);
            let hid = next_history_id(before.login_history)->Some_0;
            assert(saved.login_history.drop_last() =~= before.login_history);
            assert(saved.login_history.last() == crate::config::db::history_row(hid, rec));
        }
        if Self::update_login_session(user.username.as_str(), login_session_str.as_str(), conn) {
            proof {
                assert(conn@.login_history == saved.login_history);
                assert(conn@.people == before.people);
                assert(conn@.users == before.users.update(
                    i as int,
                    before.users[i as int].with_session(login_session_str@),
                ));
            }
            Some(LoginInfoDto { username: user.username, login_session: login_session_str })
        } else {
            proof {
                assert(false);
            }
            None
        }
    }

    /// Empties the login session of the user with id `user_id`, if any.
    pub fn logout(user_id: i32, conn: &mut Connection)
        ensures
            logout_outcome(old(conn)@, user_id, final(conn)@),
    {
        conn.check_wf();
        let test = (|u: &User| -> (b: bool)
                ensures
                    b == (u.id == user_id),
                { u.id == user_id });
        let pos = conn.find_user(Ghost(user_with_id(user_id)), test);
        if let Some(i) = pos {
            let user = conn.user_at(i);
            proof {
                lemma_named_unique(conn@, i as int);
            }
            proof {
                reveal_strlit("");
                assert(""@ =~= Seq::<char>::empty());
            }
            Self::update_login_session(user.username.as_str(), "", conn);
        }
    }

    /// Whether some user has the token's username and login session.
    pub fn validate_login_session(user_token: &UserToken, conn: &Connection) -> (res: bool)
        ensures
            res == session_valid(conn@, user_token.user@, user_token.login_session@),
    {
        let user = &user_token.user;
        let session = &user_token.login_session;
        let ghost p = |u: UserView| u.username == user@ && u.login_session == session@;
        let test = (|u: &User| -> (b: bool)
                ensures
                    b == (u.username@ == user@ && u.login_session@ == session@),
                { u.username == *user && u.login_session == *session });
        let pos = conn.find_user(Ghost(p), test);
        proof {
            if pos is Some {
                lemma_first_match_some(conn@.users, p);
                let k = first_match(conn@.users, p)->Some_0;
                assert(conn@.users[k].username == user@);
            } else if session_valid(conn@, user@, session@) {
                let k = choose|k: int|
                    0 <= k < conn@.users.len() && #[trigger] conn@.users[k].username == user@
                        && conn@.users[k].login_session == session@;
                lemma_first_match_exists(conn@.users, p, k);
            }
        }
        pos.is_some()
    }

    /// The user with this username.
    pub fn find_by_username(un: &str, conn: &Connection) -> (res: QueryResult<User>)
        ensures
            match first_match(conn@.users, named(un@)) {
                Some(i) => res is Ok && res->Ok_0@ == conn@.users[i],
                None => res == Err::<User, QueryError>(QueryError::NotFound),
            },
    {
        let target = un.to_owned();
        let test = (|u: &User| -> (b: bool)
                ensures
                    b == (u.username@ == target@),
                { u.username == target });
        let pos = conn.find_user(Ghost(named(un@)), test);
        match pos {
            Some(i) => Ok(conn.user_at(i)),
            None => Err(QueryError::NotFound),
        }
    }

    /// Sets the login session of the user with this username; `false` where
    /// there is no such user.
    pub fn update_login_session(un: &str, login_session_str: &str, conn: &mut Connection) -> (res: bool)
        ensures
            res == first_match(old(conn)@.users, named(un@)) is Some,
            session_updated(old(conn)@, un@, login_session_str@, final(conn)@),
    {
        let target = un.to_owned();
        let test = (|u: &User| -> (b: bool)
                ensures
                    b == (u.username@ == target@),
                { u.username == target });
        let pos = conn.find_user(Ghost(named(un@)), test);
        match pos {
            Some(i) => {
                conn.set_login_session(i, login_session_str.to_owned());
                true
            },
            None => false,
        }
    }

    /// Calls `uuid::Uuid::new_v4()` and formats it: a random version 4 UUID in
    /// its hyphenated lower-case form (as the crate's source shows: 8-4-4-4-12
    /// hex digits, version digit '4', variant digit one of '8', '9', 'a', 'b');
    /// nothing else is stated of which UUID comes back.
    #[verifier::external_body]
    pub fn generate_login_session() -> (res: String)
        ensures
            is_uuid_v4_text(res@),
            is_fresh_session(res@),
    {
        uuid::Uuid::new_v4().to_string()
    }
}

} // verus!
