use address_book::config::db::migrate_and_config_db;
use address_book::constants::{STATUS_NOT_FOUND};
use address_book::models::person::{Person, PersonDTO};
use address_book::services::account_book_service::{delete, find_all, find_by_id, insert, update};

fn dto(name: &str, age: i32) -> PersonDTO {
    PersonDTO {
        name: name.to_string(),
        gender: true,
        age,
        address: "1 Main St".to_string(),
        phone: "555-0100".to_string(),
        email: format!("{}@example.com", name),
    }
}

#[test]
fn insert_then_find() {
    let mut pool = migrate_and_config_db(":memory:");
    insert(dto("ann", 30), &mut pool).unwrap();
    insert(dto("bob", 40), &mut pool).unwrap();
    let all = find_all(&pool).unwrap();
    assert_eq!(all.len(), 2);
    assert_eq!(all[0].id, 1);
    assert_eq!(all[1].id, 2);
    let bob = find_by_id(2, &pool).unwrap();
    assert_eq!(bob.name, "bob");
    assert_eq!(bob.age, 40);
    assert_eq!(bob.email, "bob@example.com");
}

#[test]
fn missing_person_is_not_found() {
    let pool = migrate_and_config_db(":memory:");
    let err = find_by_id(7, &pool).unwrap_err();
    assert_eq!(err.http_status, STATUS_NOT_FOUND);
    assert_eq!(err.body.message, "person with id 7 not found");
    let err = find_by_id(-12, &pool).unwrap_err();
    assert_eq!(err.body.message, "person with id -12 not found");
    let err = find_by_id(i32::MIN, &pool).unwrap_err();
    assert_eq!(err.body.message, "person with id -2147483648 not found");
}

#[test]
fn update_replaces_fields_and_keeps_the_id() {
    let mut pool = migrate_and_config_db(":memory:");
    insert(dto("ann", 30), &mut pool).unwrap();
    update(1, dto("anne", 31), &mut pool).unwrap();
    let p = find_by_id(1, &pool).unwrap();
    assert_eq!((p.id, p.name.as_str(), p.age), (1, "anne", 31));
    let err = update(2, dto("x", 1), &mut pool).unwrap_err();
    assert_eq!(err.http_status, STATUS_NOT_FOUND);
    assert_eq!(err.body.message, "person with id 2 not found");
}

#[test]
fn delete_removes_and_ids_are_reused_only_after_the_last() {
    let mut pool = migrate_and_config_db(":memory:");
    insert(dto("ann", 30), &mut pool).unwrap();
    insert(dto("bob", 40), &mut pool).unwrap();
    insert(dto("cid", 50), &mut pool).unwrap();
    delete(2, &mut pool).unwrap();
    assert!(find_by_id(2, &pool).is_err());
    assert_eq!(delete(2, &mut pool).unwrap_err().http_status, STATUS_NOT_FOUND);
    insert(dto("dee", 60), &mut pool).unwrap();
    assert_eq!(find_by_id(4, &pool).unwrap().name, "dee");
    delete(4, &mut pool).unwrap();
    insert(dto("eve", 70), &mut pool).unwrap();
    assert_eq!(find_by_id(4, &pool).unwrap().name, "eve");
    let names: Vec<String> = find_all(&pool).unwrap().into_iter().map(|p: Person| p.name).collect();
    assert_eq!(names, vec!["ann", "cid", "eve"]);
}
