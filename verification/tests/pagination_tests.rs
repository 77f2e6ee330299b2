use todo_store::codec::{encode, TodoItem};
use todo_store::error::TodoError;
use todo_store::pagination::{normalize, PageToken};
use todo_store::store::{StoreEntry, StoreItem, StoreValue};

const OWNER: &str = "00000000-0000-0000-0000-0000000000a1";
const ITEM_A: &str = "00000000-0000-0000-0000-0000000000b1";
const ITEM_B: &str = "00000000-0000-0000-0000-0000000000b2";

fn todo(item_id: &str, title: &str) -> TodoItem {
    TodoItem {
        user_id: OWNER.to_string(),
        todo_id: item_id.to_string(),
        title: title.to_string(),
        completed: false,
    }
}

fn continuation_key() -> StoreItem {
    StoreItem {
        entries: vec![
            StoreEntry {
                name: "user_id".to_string(),
                value: StoreValue::Text(OWNER.to_string()),
            },
            StoreEntry {
                name: "todo_id".to_string(),
                value: StoreValue::Text(ITEM_B.to_string()),
            },
        ],
    }
}

#[test]
fn normalize_nothing_yields_empty_page_without_token() {
    let page = normalize(None, None).expect("empty result must normalize");
    assert!(page.items.is_empty());
    assert!(page.page_token.is_none());
}

#[test]
fn normalize_empty_batch_with_key_keeps_token() {
    let page = normalize(Some(Vec::new()), Some(continuation_key()))
        .expect("defensive shape must normalize");
    assert!(page.items.is_empty());
    let token = page.page_token.expect("token must be derived from the key");
    assert_eq!(token.partition_value.as_deref(), Some(OWNER));
    assert_eq!(token.sort_value.as_deref(), Some(ITEM_B));
}

#[test]
fn normalize_decodes_items_in_order_without_token() {
    let a = todo(ITEM_A, "first");
    let b = todo(ITEM_B, "second");
    let page = normalize(Some(vec![encode(&a), encode(&b)]), None)
        .expect("well-formed batch must normalize");
    assert_eq!(page.items, vec![a, b]);
    assert!(page.page_token.is_none());
}

#[test]
fn normalize_with_items_and_key_keeps_both() {
    let a = todo(ITEM_A, "first");
    let page = normalize(Some(vec![encode(&a)]), Some(continuation_key()))
        .expect("batch with continuation must normalize");
    assert_eq!(page.items, vec![a]);
    assert!(page.page_token.is_some());
}

#[test]
fn normalize_aborts_whole_page_on_malformed_item() {
    let a = todo(ITEM_A, "first");
    let bad = StoreItem { entries: Vec::new() };
    let result = normalize(Some(vec![encode(&a), bad]), None);
    assert!(matches!(result, Err(TodoError::MalformedStoreItem)));
}

#[test]
fn token_ignores_non_text_key_attributes() {
    let key = StoreItem {
        entries: vec![StoreEntry {
            name: "user_id".to_string(),
            value: StoreValue::Flag(true),
        }],
    };
    let token = PageToken::from_continuation_key(&key);
    assert!(token.partition_value.is_none());
    assert!(token.sort_value.is_none());
}

#[test]
fn token_from_empty_key_has_no_values() {
    let token = PageToken::from_continuation_key(&StoreItem { entries: Vec::new() });
    assert!(token.partition_value.is_none());
    assert!(token.sort_value.is_none());
}
