//! The entity codec: between a todo item and the store's item representation.
//!
//! Encoding fills server-assigned defaults on caller-supplied input and
//! renders the item as store attributes. Decoding reads an item back from
//! the store and fails on missing or wrongly typed fields: defaulting only
//! applies to caller-supplied input, never to persisted records.

use vstd::prelude::*;
use vstd::string::StringExecFns;

use crate::error::TodoError;
use crate::ids::generate_item_id;
use crate::ids::is_uuid_text;
use crate::ids::is_valid_identifier;
use crate::store::EntryModel;
use crate::store::StoreEntry;
use crate::store::StoreItem;
use crate::store::StoreValue;
use crate::store::ValueModel;
use crate::store::lookup;

verus! {

/// A fully specified todo item.
#[derive(Debug, Clone, PartialEq, Eq)]
pub struct TodoItem {
    pub user_id: String,
    pub todo_id: String,
    pub title: String,
    pub completed: bool,
}

/// The mathematical value of a [`TodoItem`].
pub struct TodoView {
    pub user_id: Seq<char>,
    pub todo_id: Seq<char>,
    pub title: Seq<char>,
    pub completed: bool,
}

impl View for TodoItem {
    type V = TodoView;

    open spec fn view(&self) -> TodoView {
        TodoView {
            user_id: self.user_id@,
            todo_id: self.todo_id@,
            title: self.title@,
            completed: self.completed,
        }
    }
}

impl TodoView {
    /// Both identifiers are syntactically valid.
    pub open spec fn wf(self) -> bool {
        is_uuid_text(self.user_id) && is_uuid_text(self.todo_id)
    }
}

/// A caller-supplied todo item: only the owner identifier is required.
#[derive(Debug, Clone)]
pub struct TodoInput {
    pub owner_id: String,
    pub item_id: Option<String>,
    pub title: Option<String>,
    pub completed: Option<bool>,
}

/// The mathematical value of a [`TodoInput`].
pub struct InputView {
    pub owner_id: Seq<char>,
    pub item_id: Option<Seq<char>>,
    pub title: Option<Seq<char>>,
    pub completed: Option<bool>,
}

impl View for TodoInput {
    type V = InputView;

    open spec fn view(&self) -> InputView {
        InputView {
            owner_id: self.owner_id@,
            item_id: match self.item_id {
                Some(ref s) => Some(s@),
                None => None,
            },
            title: match self.title {
                Some(ref s) => Some(s@),
                None => None,
            },
            completed: self.completed,
        }
    }
}

/// The attribute name of the partition key.
pub fn user_id_column() -> (r: String)
    ensures
        r@ == "user_id"@,
{
    String::from_str("user_id")
}

/// The attribute name of the sort key.
pub fn todo_id_column() -> (r: String)
    ensures
        r@ == "todo_id"@,
{
    String::from_str("todo_id")
}

fn title_column() -> (r: String)
    ensures
        r@ == "title"@,
{
    String::from_str("title")
}

fn completed_column() -> (r: String)
    ensures
        r@ == "completed"@,
{
    String::from_str("completed")
}

/// The default title of a todo item whose input carries none.
pub fn create_blank_title() -> (r: String)
    ensures
        r@ == Seq::<char>::empty(),
{
    String::new()
}

/// The default completion state of a todo item whose input carries none.
pub fn create_state() -> (r: bool)
    ensures
        r == false,
{
    false
}

/// How a filled item relates to the input it came from: every supplied
/// field is kept, every absent field is its default, and an absent item
/// identifier became some freshly generated valid identifier.
pub open spec fn filled_from(input: InputView, item: TodoView) -> bool {
    &&& item.user_id == input.owner_id
    &&& match input.item_id {
        Some(i) => item.todo_id == i,
        None => is_uuid_text(item.todo_id),
    }
    &&& match input.title {
        Some(t) => item.title == t,
        None => item.title == Seq::<char>::empty(),
    }
    &&& match input.completed {
        Some(c) => item.completed == c,
        None => item.completed == false,
    }
}

/// Applies the server-assigned defaults to caller-supplied input.
///
/// The owner identifier is kept as given; an absent item identifier is
/// replaced by a freshly generated time-ordered identifier; an absent
/// title becomes the empty string; an absent completion state becomes
/// `false`.
pub fn fill_defaults(input: &TodoInput) -> (r: TodoItem)
    ensures
        filled_from(input@, r@),
{
    let todo_id = match &input.item_id {
        Some(i) => i.clone(),
        None => generate_item_id(),
    };
    let title = match &input.title {
        Some(t) => t.clone(),
        None => create_blank_title(),
    };
    let completed = match input.completed {
        Some(c) => c,
        None => create_state(),
    };
    TodoItem { user_id: input.owner_id.clone(), todo_id, title, completed }
}

/// The store representation of a todo item: its four attributes, in a
/// fixed order, keys as text and the completion state as a boolean.
pub open spec fn spec_encode(t: TodoView) -> Seq<EntryModel> {
    seq![
        EntryModel { name: "user_id"@, value: ValueModel::Text(t.user_id) },
        EntryModel { name: "todo_id"@, value: ValueModel::Text(t.todo_id) },
        EntryModel { name: "title"@, value: ValueModel::Text(t.title) },
        EntryModel { name: "completed"@, value: ValueModel::Flag(t.completed) },
    ]
}

/// Renders a todo item in the store's item representation.
pub fn encode(item: &TodoItem) -> (r: StoreItem)
    ensures
        r@ == spec_encode(item@),
{
    let mut entries: Vec<StoreEntry> = Vec::new();
    entries.push(StoreEntry { name: user_id_column(), value: StoreValue::Text(item.user_id.clone()) });
    entries.push(StoreEntry { name: todo_id_column(), value: StoreValue::Text(item.todo_id.clone()) });
    entries.push(StoreEntry { name: title_column(), value: StoreValue::Text(item.title.clone()) });
    entries.push(StoreEntry { name: completed_column(), value: StoreValue::Flag(item.completed) });
    let r = StoreItem { entries };
    proof {
        assert(r@ =~= spec_encode(item@));
    }
    r
}

/// What decoding a store item yields: `None` when a required field is
/// missing, wrongly typed, or holds an identifier that is not
/// syntactically valid.
pub open spec fn spec_decode(item: Seq<EntryModel>) -> Option<TodoView> {
    match (
        lookup(item, "user_id"@),
        lookup(item, "todo_id"@),
        lookup(item, "title"@),
        lookup(item, "completed"@),
    ) {
        (
            Some(ValueModel::Text(user_id)),
            Some(ValueModel::Text(todo_id)),
            Some(ValueModel::Text(title)),
            Some(ValueModel::Flag(completed)),
        ) => if is_uuid_text(user_id) && is_uuid_text(todo_id) {
            Some(TodoView { user_id, todo_id, title, completed })
        } else {
            None
        },
        _ => None,
    }
}

/// Reads a todo item back from its store representation.
///
/// Never coerces bad data into defaults: a missing or wrongly typed field
/// of a persisted record is an error.
pub fn decode(item: &StoreItem) -> (r: Result<TodoItem, TodoError>)
    ensures
        match r {
            Ok(t) => spec_decode(item@) == Some(t@),
            Err(e) => spec_decode(item@) is None && e == TodoError::MalformedStoreItem,
        },
{
    let user_id = match item.get(&user_id_column()) {
        Some(StoreValue::Text(s)) => s.clone(),
        _ => return Err(TodoError::MalformedStoreItem),
    };
    let todo_id = match item.get(&todo_id_column()) {
        Some(StoreValue::Text(s)) => s.clone(),
        _ => return Err(TodoError::MalformedStoreItem),
    };
    let title = match item.get(&title_column()) {
        Some(StoreValue::Text(s)) => s.clone(),
        _ => return Err(TodoError::MalformedStoreItem),
    };
    let completed = match item.get(&completed_column()) {
        Some(StoreValue::Flag(b)) => *b,
        _ => return Err(TodoError::MalformedStoreItem),
    };
    if !is_valid_identifier(&user_id) || !is_valid_identifier(&todo_id) {
        return Err(TodoError::MalformedStoreItem);
    }
    Ok(TodoItem { user_id, todo_id, title, completed })
}

/// Round trip: decoding the encoding of any well-formed, fully specified
/// todo item reproduces the item exactly.
pub proof fn lemma_codec_round_trip(t: TodoView)
    ensures
        t.wf() ==> spec_decode(spec_encode(t)) == Some(t),
{
    reveal_strlit("user_id");
    reveal_strlit("todo_id");
    reveal_strlit("title");
    reveal_strlit("completed");
    let s = spec_encode(t);
    let s1 = s.drop_first();
    let s2 = s1.drop_first();
    let s3 = s2.drop_first();
    assert(s1 =~= seq![
        EntryModel { name: "todo_id"@, value: ValueModel::Text(t.todo_id) },
        EntryModel { name: "title"@, value: ValueModel::Text(t.title) },
        EntryModel { name: "completed"@, value: ValueModel::Flag(t.completed) },
    ]);
    assert(s2 =~= seq![
        EntryModel { name: "title"@, value: ValueModel::Text(t.title) },
        EntryModel { name: "completed"@, value: ValueModel::Flag(t.completed) },
    ]);
    assert(s3 =~= seq![
        EntryModel { name: "completed"@, value: ValueModel::Flag(t.completed) },
    ]);
    assert("user_id"@ != "todo_id"@) by {
        assert("user_id"@[0] == 'u');
        assert("todo_id"@[0] == 't');
    }
    assert("user_id"@ != "title"@) by {
        assert("user_id"@.len() == 7);
        assert("title"@.len() == 5);
    }
    assert("todo_id"@ != "title"@) by {
        assert("todo_id"@.len() == 7);
        assert("title"@.len() == 5);
    }
    assert("user_id"@ != "completed"@) by {
        assert("completed"@.len() == 9);
    }
    assert("todo_id"@ != "completed"@);
    assert("title"@ != "completed"@);
    assert(lookup(s, "user_id"@) == Some(ValueModel::Text(t.user_id)));
    assert(lookup(s, "todo_id"@) == lookup(s1, "todo_id"@));
    assert(lookup(s1, "todo_id"@) == Some(ValueModel::Text(t.todo_id)));
    assert(lookup(s, "title"@) == lookup(s1, "title"@));
    assert(lookup(s1, "title"@) == lookup(s2, "title"@));
    assert(lookup(s2, "title"@) == Some(ValueModel::Text(t.title)));
    assert(lookup(s, "completed"@) == lookup(s1, "completed"@));
    assert(lookup(s1, "completed"@) == lookup(s2, "completed"@));
    assert(lookup(s2, "completed"@) == lookup(s3, "completed"@));
    assert(lookup(s3, "completed"@) == Some(ValueModel::Flag(t.completed)));
}

} // verus!
