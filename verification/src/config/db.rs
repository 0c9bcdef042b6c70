use vstd::prelude::*;

use crate::models::login_history::{LoginHistory, LoginHistoryDto};
use crate::models::person::{person_row, Person, PersonDTO, PersonView};
use crate::models::user::{bcrypt_verify_result, named, user_row, User, UserView};
use crate::utils::search::{
    first_match, is_first_match, lemma_first_match_at, lemma_first_match_none, opt_pos,
};

verus! {

/// Why a query on the store gave no result.
#[derive(Debug, Clone, Copy, PartialEq, Eq)]
pub enum QueryError {
    /// No row matched.
    NotFound,
    /// The table holds a row with the largest id, so a new row gets none.
    IdSpaceExhausted,
}

pub type QueryResult<T> = Result<T, QueryError>;

/// The database: the `users`, `login_history` and `people` tables, each kept
/// in the order of its ids.
#[derive(Debug)]
pub struct Connection {
    users: Vec<User>,
    login_history: Vec<LoginHistory>,
    people: Vec<Person>,
}

/// The store that the services share.
pub type Pool = Connection;

/// The contents of the database.
pub struct ConnectionView {
    pub users: Seq<UserView>,
    pub login_history: Seq<LoginHistory>,
    pub people: Seq<PersonView>,
}

impl View for Connection {
    type V = ConnectionView;

    closed spec fn view(&self) -> ConnectionView {
        ConnectionView {
            users: users_view(self.users@),
            login_history: self.login_history@,
            people: people_view(self.people@),
        }
    }
}

pub open spec fn users_view(rows: Seq<User>) -> Seq<UserView> {
    rows.map_values(|u: User| u@)
}

pub open spec fn people_view(rows: Seq<Person>) -> Seq<PersonView> {
    rows.map_values(|p: Person| p@)
}

/// The id that the next row of a table gets, given the id of its last row: as
/// SQLite assigns an integer primary key, one more than the largest id, and 1
/// in an empty table; none where the largest id is already `i32::MAX`.
pub open spec fn next_id(last: Option<i32>) -> Option<i32> {
    match last {
        None => Some(1i32),
        Some(id) => if id < i32::MAX { Some((id + 1) as i32) } else { None },
    }
}

pub open spec fn next_user_id(users: Seq<UserView>) -> Option<i32> {
    next_id(if users.len() == 0 { None } else { Some(users.last().id) })
}

pub open spec fn next_history_id(rows: Seq<LoginHistory>) -> Option<i32> {
    next_id(if rows.len() == 0 { None } else { Some(rows.last().id) })
}

pub open spec fn next_person_id(people: Seq<PersonView>) -> Option<i32> {
    next_id(if people.len() == 0 { None } else { Some(people.last().id) })
}

/// The login record that `record` gives under the id `id`.
pub open spec fn history_row(id: i32, record: LoginHistoryDto) -> LoginHistory {
    LoginHistory { id, user_id: record.user_id, login_timestamp: record.login_timestamp }
}

/// The rows of `people` that an id selects.
pub open spec fn person_with_id(id: i32) -> spec_fn(PersonView) -> bool {
    |p: PersonView| p.id == id
}

impl ConnectionView {
    /// Ids increase along each table, and no two users share a username.
    pub open spec fn wf(self) -> bool {
        &&& forall|i: int, j: int|
            0 <= i < j < self.users.len() ==> #[trigger] self.users[i].id < #[trigger] self.users[j].id
        &&& forall|i: int, j: int|
            0 <= i < self.users.len() && 0 <= j < self.users.len() && i != j
                ==> #[trigger] self.users[i].username != #[trigger] self.users[j].username
        &&& forall|i: int, j: int|
            0 <= i < j < self.login_history.len() ==> #[trigger] self.login_history[i].id
                < #[trigger] self.login_history[j].id
        &&& forall|i: int, j: int|
            0 <= i < j < self.people.len() ==> #[trigger] self.people[i].id < #[trigger] self.people[j].id
    }

    /// Every stored password is a bcrypt hash that `bcrypt::verify` accepts.
    pub open spec fn passwords_are_hashes(self) -> bool {
        forall|i: int, p: Seq<char>|
            0 <= i < self.users.len() ==> #[trigger] bcrypt_verify_result(p, self.users[i].password) is Some
    }

    pub open spec fn with_users(self, users: Seq<UserView>) -> ConnectionView {
        ConnectionView { users, ..self }
    }

    pub open spec fn with_login_history(self, login_history: Seq<LoginHistory>) -> ConnectionView {
        ConnectionView { login_history, ..self }
    }

    pub open spec fn with_people(self, people: Seq<PersonView>) -> ConnectionView {
        ConnectionView { people, ..self }
    }

    pub open spec fn empty() -> ConnectionView {
        ConnectionView { users: Seq::empty(), login_history: Seq::empty(), people: Seq::empty() }
    }
}

spec fn users_ok(users: Seq<User>) -> bool {
    &&& forall|i: int, j: int| 0 <= i < j < users.len() ==> #[trigger] users[i].id < #[trigger] users[j].id
    &&& forall|i: int, j: int|
        0 <= i < users.len() && 0 <= j < users.len() && i != j
            ==> #[trigger] users[i].username@ != #[trigger] users[j].username@
    &&& forall|i: int, p: Seq<char>|
        0 <= i < users.len() ==> #[trigger] bcrypt_verify_result(p, users[i].password@) is Some
}

spec fn history_ok(rows: Seq<LoginHistory>) -> bool {
    forall|i: int, j: int| 0 <= i < j < rows.len() ==> #[trigger] rows[i].id < #[trigger] rows[j].id
}

spec fn people_ok(people: Seq<Person>) -> bool {
    forall|i: int, j: int| 0 <= i < j < people.len() ==> #[trigger] people[i].id < #[trigger] people[j].id
}

impl Connection {
    #[verifier::type_invariant]
    spec fn inv(self) -> bool {
        &&& users_ok(self.users@)
        &&& history_ok(self.login_history@)
        &&& people_ok(self.people@)
    }

    /// A database with empty tables.
    pub fn new() -> (res: Connection)
        ensures
            res@ == ConnectionView::empty(),
    {
        let res = Connection { users: Vec::new(), login_history: Vec::new(), people: Vec::new() };
        assert(res@.users =~= Seq::empty());
        assert(res@.people =~= Seq::empty());
        res
    }

    /// The store's invariant, for callers.
    pub fn check_wf(&self)
        ensures
            self@.wf(),
            self@.passwords_are_hashes(),
    {
        proof {
            use_type_invariant(self);
            assert forall|i: int, j: int| 0 <= i < j < self@.users.len() implies #[trigger] self@.users[i].id
                < #[trigger] self@.users[j].id by {
                assert(self.users@[i].id < self.users@[j].id);
            }
            assert forall|i: int, j: int|
                0 <= i < self@.users.len() && 0 <= j < self@.users.len() && i != j implies
                #[trigger] self@.users[i].username != #[trigger] self@.users[j].username by {
                assert(self.users@[i].username@ != self.users@[j].username@);
            }
            assert forall|i: int, j: int| 0 <= i < j < self@.people.len() implies #[trigger] self@.people[i].id
                < #[trigger] self@.people[j].id by {
                assert(self.people@[i].id < self.people@[j].id);
            }
            assert forall|i: int, p: Seq<char>| 0 <= i < self@.users.len() implies #[trigger] bcrypt_verify_result(
                p,
                self@.users[i].password,
            ) is Some by {
                assert(bcrypt_verify_result(p, self.users@[i].password@) is Some);
            }
        }
    }

    /// The position of the first user that `p` selects, where `p` is one of
    /// the selections by username, by login name or by id.
    pub(crate) fn find_user(&self, p: Ghost<spec_fn(UserView) -> bool>, test: impl Fn(&User) -> bool) -> (res: Option<usize>)
        requires
            forall|u: &User| #[trigger] test.requires((u,)),
            forall|u: &User, b: bool| test.ensures((u,), b) ==> b == p@(u@),
        ensures
            opt_pos(res) == first_match(self@.users, p@),
    {
        let mut i: usize = 0;
        while i < self.users.len()
            invariant
                i <= self.users.len(),
                forall|u: &User| #[trigger] test.requires((u,)),
                forall|u: &User, b: bool| test.ensures((u,), b) ==> b == p@(u@),
                forall|j: int| 0 <= j < i ==> !p@(#[trigger] self@.users[j]),
            decreases self.users.len() - i,
        {
            if test(&self.users[i]) {
                proof {
                    assert(is_first_match(self@.users, p@, i as int));
                    lemma_first_match_at(self@.users, p@, i as int);
                }
                return Some(i);
            }
            i += 1;
        }
        proof {
            lemma_first_match_none(self@.users, p@);
        }
        None
    }

    /// A copy of the user at position `i`.
    pub(crate) fn user_at(&self, i: usize) -> (res: User)
        requires
            i < self@.users.len(),
        ensures
            res@ == self@.users[i as int],
    {
        self.users[i].clone()
    }

    /// Appends a user with a fresh id, created and updated at `now`, and an
    /// empty login session.
    pub(crate) fn insert_user(
        &mut self,
        username: String,
        password: String,
        email: String,
        now: chrono::NaiveDateTime,
    ) -> (res: QueryResult<usize>)
        requires
            first_match(old(self)@.users, named(username@)) is None,
            forall|p: Seq<char>| #[trigger] bcrypt_verify_result(p, password@) is Some,
        ensures
            match next_user_id(old(self)@.users) {
                Some(id) => {
                    &&& res == Ok::<usize, QueryError>(1)
                    &&& final(self)@ == old(self)@.with_users(
                        old(self)@.users.push(user_row(id, username@, password@, email@, now)),
                    )
                },
                None => res == Err::<usize, QueryError>(QueryError::IdSpaceExhausted) && final(self)@
                    == old(self)@,
            },
    {
        proof {
            use_type_invariant(&*self);
        }
        let len = self.users.len();
        let id: i32 = if len == 0 {
            1
        } else {
            let last = self.users[len - 1].id;
            if last == i32::MAX {
                return Err(QueryError::IdSpaceExhausted);
            }
            last + 1
        };
        let ghost old_view = self@;
        let ghost old_rows = self.users@;
        let ghost name = username@;
        proof {
            assert forall|j: int| 0 <= j < old_rows.len() implies #[trigger] old_rows[j].username@ != name by {
                assert(old_view.users[j] == old_rows[j]@);
                if old_rows[j].username@ == name {
                    crate::utils::search::lemma_first_match_exists(old_view.users, named(name), j);
                }
            }
        }
        let mut users: Vec<User> = Vec::new();
        std::mem::swap(&mut users, &mut self.users);
        users.push(
            User { id, username, password, email, created_at: now, updated_at: now, login_session: String::new() },
        );
        proof {
            assert(users_view(users@) =~= old_view.users.push(users@.last()@));
            assert(users@.drop_last() =~= old_rows);
            assert(users_ok(users@));
        }
        self.users = users;
        proof {
            assert(self@.users =~= old_view.users.push(self@.users.last()));
            assert(self@.people =~= old_view.people);
        }
        Ok(1)
    }

    /// Sets the login session of the user at position `i`.
    pub(crate) fn set_login_session(&mut self, i: usize, session: String)
        requires
            i < old(self)@.users.len(),
        ensures
            final(self)@ == old(self)@.with_users(
                old(self)@.users.update(i as int, old(self)@.users[i as int].with_session(session@)),
            ),
    {
        proof {
            use_type_invariant(&*self);
        }
        let ghost old_view = self@;
        let mut users: Vec<User> = Vec::new();
        std::mem::swap(&mut users, &mut self.users);
        let u = User {
            id: users[i].id,
            username: users[i].username.clone(),
            password: users[i].password.clone(),
            email: users[i].email.clone(),
            created_at: users[i].created_at,
            updated_at: users[i].updated_at,
            login_session: session,
        };
        users.set(i, u);
        proof {
            assert(users_view(users@) =~= old_view.users.update(
                i as int,
                old_view.users[i as int].with_session(session@),
            ));
        }
        self.users = users;
        proof {
            assert(self@.people =~= old_view.people);
        }
    }

    /// Appends a login record with a fresh id.
    pub(crate) fn insert_login_history(&mut self, record: LoginHistoryDto) -> (res: QueryResult<usize>)
        ensures
            match next_history_id(old(self)@.login_history) {
                Some(id) => {
                    &&& res == Ok::<usize, QueryError>(1)
                    &&& final(self)@ == old(self)@.with_login_history(
                        old(self)@.login_history.push(history_row(id, record)),
                    )
                },
                None => res == Err::<usize, QueryError>(QueryError::IdSpaceExhausted) && final(self)@
                    == old(self)@,
            },
    {
        proof {
            use_type_invariant(&*self);
        }
        let len = self.login_history.len();
        let id: i32 = if len == 0 {
            1
        } else {
            let last = self.login_history[len - 1].id;
            if last == i32::MAX {
                return Err(QueryError::IdSpaceExhausted);
            }
            last + 1
        };
        let ghost old_view = self@;
        let mut rows: Vec<LoginHistory> = Vec::new();
        std::mem::swap(&mut rows, &mut self.login_history);
        rows.push(
            LoginHistory { id, user_id: record.user_id, login_timestamp: record.login_timestamp },
        );
        self.login_history = rows;
        proof {
            assert(self@.users =~= old_view.users);
            assert(self@.people =~= old_view.people);
        }
        Ok(1)
    }

    /// Copies of all people, in the order of their ids.
    pub(crate) fn all_people(&self) -> (res: Vec<Person>)
        ensures
            people_view(res@) == self@.people,
    {
        let mut res: Vec<Person> = Vec::new();
        let mut i: usize = 0;
        while i < self.people.len()
            invariant
                i <= self.people.len(),
                people_view(res@) =~= self@.people.take(i as int),
            decreases self.people.len() - i,
        {
            let p = self.people[i].clone();
            let ghost prev = res@;
            res.push(p);
            proof {
                assert(people_view(res@) =~= people_view(prev).push(p@));
                assert(self@.people.take(i + 1) =~= self@.people.take(i as int).push(self@.people[i as int]));
            }
            i += 1;
            proof {
                assert(people_view(res@) =~= self@.people.take(i as int));
            }
        }
        proof {
            assert(self@.people.take(i as int) =~= self@.people);
        }
        res
    }

    /// The position of the person with id `id`, if any.
    pub(crate) fn find_person(&self, id: i32) -> (res: Option<usize>)
        ensures
            opt_pos(res) == first_match(self@.people, person_with_id(id)),
    {
        let mut i: usize = 0;
        while i < self.people.len()
            invariant
                i <= self.people.len(),
                forall|j: int| 0 <= j < i ==> !person_with_id(id)(#[trigger] self@.people[j]),
            decreases self.people.len() - i,
        {
            if self.people[i].id == id {
                proof {
                    assert(is_first_match(self@.people, person_with_id(id), i as int));
                    lemma_first_match_at(self@.people, person_with_id(id), i as int);
                }
                return Some(i);
            }
            i += 1;
        }
        proof {
            lemma_first_match_none(self@.people, person_with_id(id));
        }
        None
    }

    /// A copy of the person at position `i`.
    pub(crate) fn person_at(&self, i: usize) -> (res: Person)
        requires
            i < self@.people.len(),
        ensures
            res@ == self@.people[i as int],
    {
        self.people[i].clone()
    }

    /// Appends a person with a fresh id.
    pub(crate) fn insert_person(&mut self, dto: PersonDTO) -> (res: QueryResult<usize>)
        ensures
            match next_person_id(old(self)@.people) {
                Some(id) => {
                    &&& res == Ok::<usize, QueryError>(1)
                    &&& final(self)@ == old(self)@.with_people(old(self)@.people.push(person_row(id, dto@)))
                },
                None => res == Err::<usize, QueryError>(QueryError::IdSpaceExhausted) && final(self)@
                    == old(self)@,
            },
    {
        proof {
            use_type_invariant(&*self);
        }
        let len = self.people.len();
        let id: i32 = if len == 0 {
            1
        } else {
            let last = self.people[len - 1].id;
            if last == i32::MAX {
                return Err(QueryError::IdSpaceExhausted);
            }
            last + 1
        };
        let ghost old_view = self@;
        let mut rows: Vec<Person> = Vec::new();
        std::mem::swap(&mut rows, &mut self.people);
        rows.push(Person::from_dto(id, dto));
        proof {
            assert(people_view(rows@) =~= old_view.people.push(rows@.last()@));
        }
        self.people = rows;
        proof {
            assert(self@.users =~= old_view.users);
        }
        Ok(1)
    }

    /// Replaces the fields of the person at position `i`, keeping its id.
    pub(crate) fn replace_person(&mut self, i: usize, dto: PersonDTO)
        requires
            i < old(self)@.people.len(),
        ensures
            final(self)@ == old(self)@.with_people(
                old(self)@.people.update(i as int, person_row(old(self)@.people[i as int].id, dto@)),
            ),
    {
        proof {
            use_type_invariant(&*self);
        }
        let ghost old_view = self@;
        let mut rows: Vec<Person> = Vec::new();
        std::mem::swap(&mut rows, &mut self.people);
        let id = rows[i].id;
        rows.set(i, Person::from_dto(id, dto));
        proof {
            assert(people_view(rows@) =~= old_view.people.update(
                i as int,
                person_row(id, dto@),
            ));
        }
        self.people = rows;
        proof {
            assert(self@.users =~= old_view.users);
        }
    }

    /// Removes the person at position `i`.
    pub(crate) fn remove_person(&mut self, i: usize)
        requires
            i < old(self)@.people.len(),
        ensures
            final(self)@ == old(self)@.with_people(old(self)@.people.remove(i as int)),
    {
        proof {
            use_type_invariant(&*self);
        }
        let ghost old_view = self@;
        let mut rows: Vec<Person> = Vec::new();
        std::mem::swap(&mut rows, &mut self.people);
        rows.remove(i);
        proof {
            assert(people_view(rows@) =~= old_view.people.remove(i as int));
        }
        self.people = rows;
        proof {
            assert(self@.users =~= old_view.users);
        }
    }
}

/// Opens the store that `url` names with empty `people`, `users` and
/// `login_history` tables. The store lives in memory, as the `:memory:`
/// database does, so every url gives a fresh, empty store.
pub fn migrate_and_config_db(url: &str) -> (res: Pool)
    ensures
        res@ == ConnectionView::empty(),
{
    Connection::new()
}

} // verus!
