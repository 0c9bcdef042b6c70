use vstd::prelude::*;

use crate::config::db::{history_row, next_history_id, Connection, QueryError, QueryResult};
use crate::models::user::{named, User};
use crate::utils::search::first_match;

verus! {

#[verifier::external_type_specification]
#[verifier::external_body]
pub struct ExNaiveDateTime(chrono::NaiveDateTime);

/// A row of the `login_history` table.
#[derive(Debug)]
pub struct LoginHistory {
    pub id: i32,
    pub user_id: i32,
    pub login_timestamp: chrono::NaiveDateTime,
}

/// A login to record.
#[derive(Debug)]
pub struct LoginHistoryDto {
    pub user_id: i32,
    pub login_timestamp: chrono::NaiveDateTime,
}

/// `t` is a reading of the system clock: a time that `utc_now_naive`
/// returned. Any time can be read from the clock, so nothing is known of the
/// value; the definition is opaque so that, in a proof, only a time that the
/// clock call gave counts as a reading, and a time made up by the code does
/// not.
#[verifier::opaque]
pub closed spec fn is_clock_time(t: chrono::NaiveDateTime) -> bool {
    true
}

/// Calls `chrono::Utc::now().naive_utc()`: the current time. Nothing is stated
/// of its value; it is a clock reading (`is_clock_time`).
#[verifier::external_body]
pub(crate) fn utc_now_naive() -> (res: chrono::NaiveDateTime)
    ensures
        is_clock_time(res),
{
    chrono::Utc::now().naive_utc()
}

impl LoginHistory {
    /// A login record for the user with this username, stamped with the current time.
    pub fn create(un: &str, conn: &Connection) -> (res: Option<LoginHistoryDto>)
        ensures
            match first_match(conn@.users, named(un@)) {
                Some(i) => res is Some && res->Some_0.user_id == conn@.users[i].id && is_clock_time(
                    res->Some_0.login_timestamp,
                ),
                None => res is None,
            },
    {
        match User::find_by_username(un, conn) {
            Ok(user) => {
                let now = utc_now_naive();
                Some(LoginHistoryDto { user_id: user.id, login_timestamp: now })
            },
            Err(_) => None,
        }
    }

    /// Stores a login record under the next id.
    pub fn save_login_history(insert_record: LoginHistoryDto, conn: &mut Connection) -> (res: QueryResult<usize>)
        ensures
            match next_history_id(old(conn)@.login_history) {
                Some(id) => res == Ok::<usize, QueryError>(1) && final(conn)@ == old(conn)@.with_login_history(
                    old(conn)@.login_history.push(history_row(id, insert_record)),
                ),
                None => res == Err::<usize, QueryError>(QueryError::IdSpaceExhausted) && final(conn)@ == old(conn)@,
            },
    {
        conn.insert_login_history(insert_record)
    }
}

} // verus!
