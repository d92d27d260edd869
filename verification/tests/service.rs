//! The operations run against a table held in memory.

use axum_todo_app::db::{Command, Query, StorageError};
use axum_todo_app::modules::todos::todo_controller;
use axum_todo_app::modules::todos::todo_controller::Status;
use axum_todo_app::modules::todos::todo_dto::{CreateItemDto, UpdateItemDto};
use axum_todo_app::modules::todos::todo_entity::Item;
use axum_todo_app::modules::todos::todo_service;
use axum_todo_app::modules::todos::todo_service::ErrorKind;
use axum_todo_app::table::MemoryTable;

fn payload(name: &str, description: &str) -> CreateItemDto {
    CreateItemDto { name: name.to_string(), description: description.to_string() }
}

fn item(id: &str, name: &str, description: &str) -> Item {
    Item { id: id.to_string(), name: name.to_string(), description: description.to_string() }
}

fn sorted_by_id(mut items: Vec<Item>) -> Vec<Item> {
    items.sort_by(|a, b| a.id.cmp(&b.id));
    items
}

#[test]
fn scenario_create_get_update_get_delete_get() {
    let mut table = MemoryTable::new();

    let created = todo_controller::create_item(todo_service::create_item(
        &mut table,
        payload("Buy milk", "2%"),
    ));
    assert_eq!(created.status, Status::Success);
    assert_eq!(created.status.code(), 200);
    let made = created.body.expect("a created item");
    assert_eq!(made.name, "Buy milk");
    assert_eq!(made.description, "2%");
    assert_eq!(made.id.len(), 36);
    let id = made.id.clone();

    let first = todo_controller::get_item(todo_service::get_item(&table, id.clone()));
    assert_eq!(first.status.code(), 200);
    assert_eq!(first.body, Some(item(&id, "Buy milk", "2%")));
    assert_eq!(first.body, Some(made));

    let update = UpdateItemDto { name: None, description: Some("skim".to_string()) };
    let updated = todo_controller::update_item(todo_service::update_item(
        &mut table,
        id.clone(),
        update,
    ));
    assert_eq!(updated, Status::NoContent);
    assert_eq!(updated.code(), 204);

    let second = todo_controller::get_item(todo_service::get_item(&table, id.clone()));
    assert_eq!(second.status.code(), 200);
    assert_eq!(second.body, Some(item(&id, "Buy milk", "skim")));

    let deleted = todo_controller::delete_item(todo_service::delete_item(&mut table, id.clone()));
    assert_eq!(deleted, Status::NoContent);
    assert_eq!(deleted.code(), 204);

    let third = todo_controller::get_item(todo_service::get_item(&table, id));
    assert_eq!(third.status, Status::NotFound);
    assert_eq!(third.status.code(), 404);
    assert_eq!(third.body, None);
}

#[test]
fn create_then_get_returns_the_created_item() {
    let mut table = MemoryTable::new();
    let made = todo_service::create_item(&mut table, payload("Walk the dog", "")).unwrap();
    assert_eq!(made.name, "Walk the dog");
    assert_eq!(made.description, "");
    let got = todo_service::get_item(&table, made.id.clone());
    assert_eq!(got, Ok(made));
}

#[test]
fn create_with_id_stores_the_item_under_that_id() {
    let mut table = MemoryTable::new();
    let made = todo_service::create_item_with_id(&mut table, "k1".to_string(), payload("a", "b"));
    assert_eq!(made, Ok(item("k1", "a", "b")));
    assert_eq!(todo_service::get_item(&table, "k1".to_string()), Ok(item("k1", "a", "b")));
    assert_eq!(todo_service::get_item(&table, "k2".to_string()), Err(ErrorKind::NotFound));
}

#[test]
fn create_under_a_taken_id_is_a_storage_error_and_changes_nothing() {
    let mut table = MemoryTable::new();
    let first = todo_service::create_item_with_id(&mut table, "k1".to_string(), payload("a", "b"));
    assert_eq!(first, Ok(item("k1", "a", "b")));
    let second = todo_service::create_item_with_id(&mut table, "k1".to_string(), payload("c", "d"));
    assert_eq!(second, Err(ErrorKind::Storage));
    assert_eq!(todo_controller::create_item(second).status.code(), 500);
    assert_eq!(todo_service::get_item(&table, "k1".to_string()), Ok(item("k1", "a", "b")));
    assert_eq!(todo_service::list_items(&table).unwrap().len(), 1);
}

#[test]
fn delete_then_get_is_not_found() {
    let mut table = MemoryTable::new();
    let made = todo_service::create_item(&mut table, payload("a", "b")).unwrap();
    assert_eq!(todo_service::delete_item(&mut table, made.id.clone()), Ok(()));
    assert_eq!(todo_service::get_item(&table, made.id), Err(ErrorKind::NotFound));
}

#[test]
fn delete_of_a_missing_id_succeeds() {
    let mut table = MemoryTable::new();
    todo_service::create_item_with_id(&mut table, "k1".to_string(), payload("a", "b")).unwrap();
    let outcome = todo_service::delete_item(&mut table, "nobody".to_string());
    assert_eq!(outcome, Ok(()));
    assert_eq!(todo_controller::delete_item(outcome).code(), 204);
    assert_eq!(todo_service::list_items(&table).unwrap(), vec![item("k1", "a", "b")]);
    assert_eq!(todo_service::delete_item(&mut table, "k1".to_string()), Ok(()));
    assert_eq!(todo_service::delete_item(&mut table, "k1".to_string()), Ok(()));
    assert_eq!(todo_service::list_items(&table).unwrap(), Vec::<Item>::new());
}

#[test]
fn update_of_the_name_leaves_the_description() {
    let mut table = MemoryTable::new();
    todo_service::create_item_with_id(&mut table, "k1".to_string(), payload("old", "kept")).unwrap();
    todo_service::create_item_with_id(&mut table, "k2".to_string(), payload("other", "row")).unwrap();
    let update = UpdateItemDto { name: Some("X".to_string()), description: None };
    assert_eq!(todo_service::update_item(&mut table, "k1".to_string(), update), Ok(()));
    assert_eq!(todo_service::get_item(&table, "k1".to_string()), Ok(item("k1", "X", "kept")));
    assert_eq!(todo_service::get_item(&table, "k2".to_string()), Ok(item("k2", "other", "row")));
}

#[test]
fn update_of_both_fields_and_of_none() {
    let mut table = MemoryTable::new();
    todo_service::create_item_with_id(&mut table, "k1".to_string(), payload("n", "d")).unwrap();
    let nothing = UpdateItemDto { name: None, description: None };
    assert_eq!(todo_service::update_item(&mut table, "k1".to_string(), nothing), Ok(()));
    assert_eq!(todo_service::get_item(&table, "k1".to_string()), Ok(item("k1", "n", "d")));
    let both = UpdateItemDto { name: Some("N".to_string()), description: Some("".to_string()) };
    assert_eq!(todo_service::update_item(&mut table, "k1".to_string(), both), Ok(()));
    assert_eq!(todo_service::get_item(&table, "k1".to_string()), Ok(item("k1", "N", "")));
}

#[test]
fn update_of_a_missing_id_is_not_found() {
    let mut table = MemoryTable::new();
    todo_service::create_item_with_id(&mut table, "k1".to_string(), payload("a", "b")).unwrap();
    let update = UpdateItemDto { name: Some("X".to_string()), description: None };
    let outcome = todo_service::update_item(&mut table, "nobody".to_string(), update);
    assert_eq!(outcome, Err(ErrorKind::NotFound));
    assert_eq!(todo_controller::update_item(outcome), Status::NotFound);
    assert_eq!(todo_controller::update_item(outcome).code(), 404);
    assert_eq!(todo_service::list_items(&table).unwrap(), vec![item("k1", "a", "b")]);
}

#[test]
fn list_of_an_empty_table_is_empty() {
    let table = MemoryTable::new();
    let outcome = todo_service::list_items(&table);
    assert_eq!(outcome, Ok(Vec::<Item>::new()));
    let response = todo_controller::list_items(outcome);
    assert_eq!(response.status.code(), 200);
    assert_eq!(response.body, Some(Vec::<Item>::new()));
}

#[test]
fn list_holds_every_item_once() {
    let mut table = MemoryTable::new();
    todo_service::create_item_with_id(&mut table, "b".to_string(), payload("2", "two")).unwrap();
    todo_service::create_item_with_id(&mut table, "a".to_string(), payload("1", "one")).unwrap();
    todo_service::create_item_with_id(&mut table, "c".to_string(), payload("3", "three")).unwrap();
    todo_service::delete_item(&mut table, "b".to_string()).unwrap();
    let items = sorted_by_id(todo_service::list_items(&table).unwrap());
    assert_eq!(items, vec![item("a", "1", "one"), item("c", "3", "three")]);
}

#[test]
fn drawn_ids_are_random_uuids_in_text_form() {
    let first = todo_service::new_item(payload("a", "b"));
    let second = todo_service::new_item(payload("a", "b"));
    assert_ne!(first.id, second.id);
    for drawn in [&first, &second] {
        assert_eq!(drawn.name, "a");
        assert_eq!(drawn.description, "b");
        let text = drawn.id.as_bytes();
        assert_eq!(text.len(), 36);
        for (at, byte) in text.iter().enumerate() {
            if at == 8 || at == 13 || at == 18 || at == 23 {
                assert_eq!(*byte, b'-');
            } else {
                assert!(byte.is_ascii_digit() || (b'a'..=b'f').contains(byte));
            }
        }
        assert_eq!(text[14], b'4');
        assert!(matches!(text[19], b'8' | b'9' | b'a' | b'b'));
        let parsed = uuid::Uuid::parse_str(&drawn.id).expect("a UUID");
        assert_eq!(parsed.get_version_num(), 4);
        assert_eq!(parsed.to_string(), drawn.id);
    }
}

#[test]
fn replies_to_a_lookup() {
    let one = todo_service::found(Ok(vec![item("k", "n", "d")]));
    assert_eq!(one, Ok(item("k", "n", "d")));
    let first_of_two = todo_service::found(Ok(vec![item("k", "n", "d"), item("l", "m", "e")]));
    assert_eq!(first_of_two, Ok(item("k", "n", "d")));
    assert_eq!(todo_service::found(Ok(Vec::new())), Err(ErrorKind::NotFound));
    assert_eq!(todo_service::found(Err(StorageError {})), Err(ErrorKind::Storage));
}

#[test]
fn replies_to_the_other_statements() {
    assert_eq!(todo_service::created(item("k", "n", "d"), Ok(())), Ok(item("k", "n", "d")));
    assert_eq!(
        todo_service::created(item("k", "n", "d"), Err(StorageError {})),
        Err(ErrorKind::Storage)
    );
    assert_eq!(todo_service::listed(Ok(vec![item("k", "n", "d")])), Ok(vec![item("k", "n", "d")]));
    assert_eq!(todo_service::listed(Ok(Vec::new())), Ok(Vec::new()));
    assert_eq!(todo_service::listed(Err(StorageError {})), Err(ErrorKind::Storage));
    assert_eq!(todo_service::completed(Ok(())), Ok(()));
    assert_eq!(todo_service::completed(Err(StorageError {})), Err(ErrorKind::Storage));
}

#[test]
fn statements_of_the_operations() {
    let stored = item("k", "n", "d");
    match todo_service::insert_command(&stored) {
        Command::Insert(held) => assert_eq!(held, stored),
        other => panic!("not an insert: {:?}", other),
    }
    assert!(matches!(todo_service::list_query(), Query::SelectAll));
    match todo_service::get_query("k".to_string()) {
        Query::SelectOne(id) => assert_eq!(id, "k"),
        other => panic!("not a lookup: {:?}", other),
    }
    match todo_service::delete_command("k".to_string()) {
        Command::Delete(id) => assert_eq!(id, "k"),
        other => panic!("not a delete: {:?}", other),
    }
}

#[test]
fn second_step_of_an_update() {
    let update = UpdateItemDto { name: None, description: Some("skim".to_string()) };
    match todo_service::update_command(update, Ok(item("k", "Buy milk", "2%"))) {
        Ok(Command::Update(merged)) => assert_eq!(merged, item("k", "Buy milk", "skim")),
        other => panic!("not an update: {:?}", other),
    }
    let update = UpdateItemDto { name: Some("X".to_string()), description: None };
    assert!(matches!(
        todo_service::update_command(update, Err(ErrorKind::NotFound)),
        Err(ErrorKind::NotFound)
    ));
    let update = UpdateItemDto { name: Some("X".to_string()), description: None };
    assert!(matches!(
        todo_service::update_command(update, Err(ErrorKind::Storage)),
        Err(ErrorKind::Storage)
    ));
}

#[test]
fn merge_policy() {
    let stored = || item("k", "n", "d");
    let dto = |name: Option<&str>, description: Option<&str>| UpdateItemDto {
        name: name.map(str::to_string),
        description: description.map(str::to_string),
    };
    assert_eq!(dto(None, None).merge(stored()), item("k", "n", "d"));
    assert_eq!(dto(Some("N"), None).merge(stored()), item("k", "N", "d"));
    assert_eq!(dto(None, Some("D")).merge(stored()), item("k", "n", "D"));
    assert_eq!(dto(Some("N"), Some("D")).merge(stored()), item("k", "N", "D"));
    assert_eq!(dto(Some(""), Some("")).merge(stored()), item("k", "", ""));
    assert_eq!(payload("n", "d").with_id("k".to_string()), item("k", "n", "d"));
}

#[test]
fn memory_table_answers_as_the_model_says() {
    let mut table = MemoryTable::new();
    assert!(table.execute(&Command::CreateTable).is_ok());
    assert!(table.execute(&Command::Insert(item("k", "n", "d"))).is_ok());
    assert!(table.execute(&Command::Insert(item("k", "x", "y"))).is_err());
    assert!(table.execute(&Command::CreateTable).is_ok());
    assert_eq!(table.fetch(&Query::SelectOne("k".to_string())).unwrap(), vec![item("k", "n", "d")]);
    assert!(table.execute(&Command::Update(item("k", "N", "D"))).is_ok());
    assert!(table.execute(&Command::Update(item("absent", "N", "D"))).is_ok());
    assert_eq!(table.fetch(&Query::SelectAll).unwrap(), vec![item("k", "N", "D")]);
    assert_eq!(table.fetch(&Query::SelectOne("absent".to_string())).unwrap(), Vec::<Item>::new());
    assert!(table.execute(&Command::Delete("absent".to_string())).is_ok());
    assert!(table.execute(&Command::Delete("k".to_string())).is_ok());
    assert_eq!(table.fetch(&Query::SelectAll).unwrap(), Vec::<Item>::new());
}

#[test]
fn items_compare_by_their_fields() {
    assert_eq!(item("k", "n", "d"), item("k", "n", "d"));
    assert_ne!(item("k", "n", "d"), item("j", "n", "d"));
    assert_ne!(item("k", "n", "d"), item("k", "m", "d"));
    assert_ne!(item("k", "n", "d"), item("k", "n", "e"));
    let first = item("k", "n", "d");
    assert_eq!(first.clone(), first);
}
