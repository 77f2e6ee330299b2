use todo_store::codec::{
    create_blank_title, create_state, decode, encode, fill_defaults, TodoInput, TodoItem,
};
use todo_store::error::TodoError;
use todo_store::ids::is_valid_identifier;
use todo_store::store::{StoreEntry, StoreItem, StoreValue};

const OWNER: &str = "00000000-0000-0000-0000-0000000000a1";
const ITEM: &str = "00000000-0000-0000-0000-0000000000b2";

fn owner_only_input() -> TodoInput {
    TodoInput {
        owner_id: OWNER.to_string(),
        item_id: None,
        title: None,
        completed: None,
    }
}

fn full_item() -> TodoItem {
    TodoItem {
        user_id: OWNER.to_string(),
        todo_id: ITEM.to_string(),
        title: "buy milk".to_string(),
        completed: true,
    }
}

fn entry(name: &str, value: StoreValue) -> StoreEntry {
    StoreEntry { name: name.to_string(), value }
}

#[test]
fn fill_defaults_generates_missing_fields() {
    let item = fill_defaults(&owner_only_input());
    assert_eq!(item.user_id, OWNER);
    assert!(is_valid_identifier(&item.todo_id));
    assert_eq!(item.title, "");
    assert_eq!(item.completed, false);
}

#[test]
fn fill_defaults_keeps_supplied_fields() {
    let input = TodoInput {
        owner_id: OWNER.to_string(),
        item_id: Some(ITEM.to_string()),
        title: Some("buy milk".to_string()),
        completed: Some(true),
    };
    let item = fill_defaults(&input);
    assert_eq!(item, full_item());
}

#[test]
fn generated_item_ids_are_unique_and_increasing() {
    let mut ids: Vec<String> = Vec::new();
    for _ in 0..10 {
        ids.push(fill_defaults(&owner_only_input()).todo_id);
    }
    for pair in ids.windows(2) {
        assert!(pair[0] < pair[1], "ids not increasing: {} then {}", pair[0], pair[1]);
    }
}

#[test]
fn encode_produces_the_four_attributes() {
    let encoded = encode(&full_item());
    let expected = StoreItem {
        entries: vec![
            entry("user_id", StoreValue::Text(OWNER.to_string())),
            entry("todo_id", StoreValue::Text(ITEM.to_string())),
            entry("title", StoreValue::Text("buy milk".to_string())),
            entry("completed", StoreValue::Flag(true)),
        ],
    };
    assert_eq!(encoded, expected);
}

#[test]
fn decode_reverses_encode() {
    let item = full_item();
    let decoded = decode(&encode(&item)).expect("round trip must decode");
    assert_eq!(decoded, item);
}

#[test]
fn decode_rejects_missing_field() {
    let mut encoded = encode(&full_item());
    encoded.entries.retain(|e| e.name != "title");
    assert!(matches!(decode(&encoded), Err(TodoError::MalformedStoreItem)));
}

#[test]
fn decode_rejects_wrongly_typed_field() {
    let mut encoded = encode(&full_item());
    for e in encoded.entries.iter_mut() {
        if e.name == "completed" {
            e.value = StoreValue::Text("true".to_string());
        }
    }
    assert!(matches!(decode(&encoded), Err(TodoError::MalformedStoreItem)));
}

#[test]
fn decode_rejects_invalid_identifier() {
    let mut encoded = encode(&full_item());
    for e in encoded.entries.iter_mut() {
        if e.name == "user_id" {
            e.value = StoreValue::Text("not-an-identifier".to_string());
        }
    }
    assert!(matches!(decode(&encoded), Err(TodoError::MalformedStoreItem)));
}

#[test]
fn blank_title_default_is_empty() {
    assert_eq!(create_blank_title(), "");
}

#[test]
fn completion_state_default_is_false() {
    assert_eq!(create_state(), false);
}

#[test]
fn identifier_validation_accepts_uuid_text() {
    assert!(is_valid_identifier(&OWNER.to_string()));
    assert!(is_valid_identifier(
        &uuid::Uuid::now_v7().to_string()
    ));
}

#[test]
fn identifier_validation_rejects_other_text() {
    assert!(!is_valid_identifier(&"u1".to_string()));
    assert!(!is_valid_identifier(&"".to_string()));
    assert!(!is_valid_identifier(
        &"00000000-0000-0000-0000-0000000000zz".to_string()
    ));
}
