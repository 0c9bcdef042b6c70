use vstd::prelude::*;

use crate::config::db::{next_person_id, people_view, person_with_id, Pool};
use crate::constants::{
    MESSAGE_CAN_NOT_DELETE_DATA, MESSAGE_CAN_NOT_FETCH_DATA, MESSAGE_CAN_NOT_INSERT_DATA,
    MESSAGE_CAN_NOT_UPDATE_DATA, STATUS_INTERNAL_SERVER_ERROR, STATUS_NOT_FOUND,
};
use crate::error::ServiceError;
use crate::models::person::{person_row, Person, PersonDTO};
use crate::utils::search::first_match;
use crate::utils::text::{decimal, i32_to_string};

verus! {

/// "person with id {id} not found".
pub open spec fn not_found_message(id: i32) -> Seq<char> {
    "person with id "@ + decimal(id as int) + " not found"@
}

/// The error for a missing person.
fn person_not_found(id: i32) -> (res: ServiceError)
    ensures
        res.is(STATUS_NOT_FOUND, not_found_message(id)),
{
    let mut message = "person with id ".to_owned();
    message.append(i32_to_string(id).as_str());
    message.append(" not found");
    ServiceError::new(STATUS_NOT_FOUND, message)
}

/// All people.
pub fn find_all(poll: &Pool) -> (res: Result<Vec<Person>, ServiceError>)
    ensures
        res is Ok,
        people_view(res->Ok_0@) == poll@.people,
{
    match Person::find_all(poll) {
        Ok(persons) => Ok(persons),
        Err(_) => Err(ServiceError::new(STATUS_INTERNAL_SERVER_ERROR, MESSAGE_CAN_NOT_FETCH_DATA.to_owned())),
    }
}

/// The person with this id, or "not found".
pub fn find_by_id(id: i32, poll: &Pool) -> (res: Result<Person, ServiceError>)
    ensures
        match first_match(poll@.people, person_with_id(id)) {
            Some(i) => res is Ok && res->Ok_0@ == poll@.people[i],
            None => res is Err && res->Err_0.is(STATUS_NOT_FOUND, not_found_message(id)),
        },
{
    match Person::find_by_id(id, poll) {
        Ok(person) => Ok(person),
        Err(_) => Err(person_not_found(id)),
    }
}

/// Stores a new person under the next id; an internal error where no id is left.
pub fn insert(person: PersonDTO, poll: &mut Pool) -> (res: Result<(), ServiceError>)
    ensures
        match next_person_id(old(poll)@.people) {
            Some(id) => res is Ok && final(poll)@ == old(poll)@.with_people(
                old(poll)@.people.push(person_row(id, person@)),
            ),
            None => res is Err && res->Err_0.is(STATUS_INTERNAL_SERVER_ERROR, MESSAGE_CAN_NOT_INSERT_DATA@)
                && final(poll)@ == old(poll)@,
        },
{
    match Person::insert(person, poll) {
        Ok(_) => Ok(()),
        Err(_) => Err(ServiceError::new(STATUS_INTERNAL_SERVER_ERROR, MESSAGE_CAN_NOT_INSERT_DATA.to_owned())),
    }
}

/// Replaces the fields of the person with this id, or "not found".
pub fn update(id: i32, update_person: PersonDTO, poll: &mut Pool) -> (res: Result<(), ServiceError>)
    ensures
        match first_match(old(poll)@.people, person_with_id(id)) {
            Some(i) => res is Ok && final(poll)@ == old(poll)@.with_people(
                old(poll)@.people.update(i, person_row(id, update_person@)),
            ),
            None => res is Err && res->Err_0.is(STATUS_NOT_FOUND, not_found_message(id)) && final(poll)@
                == old(poll)@,
        },
{
    match Person::find_by_id(id, poll) {
        Ok(_) => match Person::update(id, update_person, poll) {
            Ok(_) => Ok(()),
            Err(_) => Err(ServiceError::new(STATUS_INTERNAL_SERVER_ERROR, MESSAGE_CAN_NOT_UPDATE_DATA.to_owned())),
        },
        Err(_) => Err(person_not_found(id)),
    }
}

/// Removes the person with this id, or "not found".
pub fn delete(id: i32, poll: &mut Pool) -> (res: Result<(), ServiceError>)
    ensures
        match first_match(old(poll)@.people, person_with_id(id)) {
            Some(i) => res is Ok && final(poll)@ == old(poll)@.with_people(old(poll)@.people.remove(i)),
            None => res is Err && res->Err_0.is(STATUS_NOT_FOUND, not_found_message(id)) && final(poll)@
                == old(poll)@,
        },
{
    match Person::find_by_id(id, poll) {
        Ok(_) => match Person::delete(id, poll) {
            Ok(_) => Ok(()),
            Err(_) => Err(ServiceError::new(STATUS_INTERNAL_SERVER_ERROR, MESSAGE_CAN_NOT_DELETE_DATA.to_owned())),
        },
        Err(_) => Err(person_not_found(id)),
    }
}

} // verus!
