use vstd::prelude::*;

use crate::config::db::{next_person_id, people_view, person_with_id, Connection, QueryError, QueryResult};
use crate::utils::search::{first_match, lemma_first_match_some};

verus! {

/// A row of the `people` table.
#[derive(Debug)]
pub struct Person {
    pub id: i32,
    pub name: String,
    pub gender: bool,
    pub age: i32,
    pub address: String,
    pub phone: String,
    pub email: String,
}

/// The fields of a person that a client sends (everything but the id).
#[derive(Debug)]
pub struct PersonDTO {
    pub name: String,
    pub gender: bool,
    pub age: i32,
    pub address: String,
    pub phone: String,
    pub email: String,
}

pub struct PersonView {
    pub id: i32,
    pub name: Seq<char>,
    pub gender: bool,
    pub age: i32,
    pub address: Seq<char>,
    pub phone: Seq<char>,
    pub email: Seq<char>,
}

pub struct PersonDTOView {
    pub name: Seq<char>,
    pub gender: bool,
    pub age: i32,
    pub address: Seq<char>,
    pub phone: Seq<char>,
    pub email: Seq<char>,
}

impl View for Person {
    type V = PersonView;

    open spec fn view(&self) -> PersonView {
        PersonView {
            id: self.id,
            name: self.name@,
            gender: self.gender,
            age: self.age,
            address: self.address@,
            phone: self.phone@,
            email: self.email@,
        }
    }
}

impl View for PersonDTO {
    type V = PersonDTOView;

    open spec fn view(&self) -> PersonDTOView {
        PersonDTOView {
            name: self.name@,
            gender: self.gender,
            age: self.age,
            address: self.address@,
            phone: self.phone@,
            email: self.email@,
        }
    }
}

/// The row that a person's fields give under a given id.
pub open spec fn person_row(id: i32, dto: PersonDTOView) -> PersonView {
    PersonView {
        id,
        name: dto.name,
        gender: dto.gender,
        age: dto.age,
        address: dto.address,
        phone: dto.phone,
        email: dto.email,
    }
}

impl Clone for Person {
    fn clone(&self) -> (res: Person)
        ensures
            res@ == self@,
    {
        Person {
            id: self.id,
            name: self.name.clone(),
            gender: self.gender,
            age: self.age,
            address: self.address.clone(),
            phone: self.phone.clone(),
            email: self.email.clone(),
        }
    }
}

impl Person {
    /// The row that `dto` gives under the id `id`.
    pub fn from_dto(id: i32, dto: PersonDTO) -> (res: Person)
        ensures
            res@ == person_row(id, dto@),
    {
        Person {
            id,
            name: dto.name,
            gender: dto.gender,
            age: dto.age,
            address: dto.address,
            phone: dto.phone,
            email: dto.email,
        }
    }
}

impl Person {
    /// All people, in the order of their ids.
    pub fn find_all(conn: &Connection) -> (res: QueryResult<Vec<Person>>)
        ensures
            res is Ok,
            people_view(res->Ok_0@) == conn@.people,
    {
        Ok(conn.all_people())
    }

    /// The person with this id.
    pub fn find_by_id(id: i32, conn: &Connection) -> (res: QueryResult<Person>)
        ensures
            match first_match(conn@.people, person_with_id(id)) {
                Some(i) => res is Ok && res->Ok_0@ == conn@.people[i],
                None => res == Err::<Person, QueryError>(QueryError::NotFound),
            },
    {
        match conn.find_person(id) {
            Some(i) => Ok(conn.person_at(i)),
            None => Err(QueryError::NotFound),
        }
    }

    /// Stores a person under the next id.
    pub fn insert(new_person: PersonDTO, conn: &mut Connection) -> (res: QueryResult<usize>)
        ensures
            match next_person_id(old(conn)@.people) {
                Some(id) => res == Ok::<usize, QueryError>(1) && final(conn)@ == old(conn)@.with_people(
                    old(conn)@.people.push(person_row(id, new_person@)),
                ),
                None => res == Err::<usize, QueryError>(QueryError::IdSpaceExhausted) && final(conn)@
                    == old(conn)@,
            },
    {
        conn.insert_person(new_person)
    }

    /// Replaces the fields of the person with this id; the number of rows changed.
    pub fn update(id: i32, updated_person: PersonDTO, conn: &mut Connection) -> (res: QueryResult<usize>)
        ensures
            match first_match(old(conn)@.people, person_with_id(id)) {
                Some(i) => res == Ok::<usize, QueryError>(1) && final(conn)@ == old(conn)@.with_people(
                    old(conn)@.people.update(i, person_row(id, updated_person@)),
                ),
                None => res == Ok::<usize, QueryError>(0) && final(conn)@ == old(conn)@,
            },
    {
        match conn.find_person(id) {
            Some(i) => {
                proof {
                    lemma_first_match_some(conn@.people, person_with_id(id));
                }
                conn.replace_person(i, updated_person);
                Ok(1)
            },
            None => Ok(0),
        }
    }

    /// Removes the person with this id; the number of rows removed.
    pub fn delete(id: i32, conn: &mut Connection) -> (res: QueryResult<usize>)
        ensures
            match first_match(old(conn)@.people, person_with_id(id)) {
                Some(i) => res == Ok::<usize, QueryError>(1) && final(conn)@ == old(conn)@.with_people(
                    old(conn)@.people.remove(i),
                ),
                None => res == Ok::<usize, QueryError>(0) && final(conn)@ == old(conn)@,
            },
    {
        match conn.find_person(id) {
            Some(i) => {
                conn.remove_person(i);
                Ok(1)
            },
            None => Ok(0),
        }
    }
}

} // verus!
