//! The decision logic of the five operations: create, read-one, update,
//! delete, and list-by-owner.
//!
//! Each operation splits into a preparation step — validate the inputs,
//! resolve the table name, build the store request — and an interpretation
//! step that maps the store's outcome, handed back as plain values, to the
//! uniform result-or-error contract. The single store call in between is
//! network I/O and belongs to the surrounding process.

use vstd::prelude::*;

use crate::codec::InputView;
use crate::codec::TodoInput;
use crate::codec::TodoItem;
use crate::codec::TodoView;
use crate::codec::decode;
use crate::codec::encode;
use crate::codec::fill_defaults;
use crate::codec::filled_from;
use crate::codec::spec_decode;
use crate::codec::spec_encode;
use crate::config::resolve_table_name;
use crate::error::TodoError;
use crate::ids::is_uuid_text;
use crate::ids::is_valid_identifier;
use crate::keys::PrimaryKey;
use crate::keys::build_primary_key;
use crate::keys::spec_key_item;
use crate::store::EntryModel;
use crate::store::StoreItem;
use crate::store::opt_item_view;

verus! {

/// The plan of an unconditional put: the destination table, the fully
/// specified item the response reports, and its store representation.
pub struct PutPlan {
    pub table_name: String,
    pub item: TodoItem,
    pub store_item: StoreItem,
}

/// The plan of a point lookup or an unconditional delete: the destination
/// table, the primary key, and the key's store representation.
pub struct KeyedPlan {
    pub table_name: String,
    pub key: PrimaryKey,
    pub key_item: StoreItem,
}

/// The plan of a range query scoped to one owner's partition.
pub struct QueryPlan {
    pub table_name: String,
    pub partition_value: String,
}

/// Whether caller-supplied create input passes validation: the owner
/// identifier, and the item identifier where one is supplied, are
/// syntactically valid.
pub open spec fn create_input_ok(input: InputView) -> bool {
    &&& is_uuid_text(input.owner_id)
    &&& match input.item_id {
        Some(i) => is_uuid_text(i),
        None => true,
    }
}

/// Prepares a create: resolves the table name, validates the input,
/// fills the server-assigned defaults, and encodes the item for an
/// unconditional put (last-write-wins, no concurrency check).
///
/// Fails with `ConfigMissing` exactly when no table name is configured,
/// and otherwise with `InvalidIdentifier` exactly when the input carries
/// a malformed identifier.
pub fn prepare_create(table: Option<String>, input: &TodoInput) -> (r: Result<PutPlan, TodoError>)
    ensures
        match r {
            Ok(p) => {
                &&& table matches Some(t) && p.table_name@ == t@
                &&& create_input_ok(input@)
                &&& filled_from(input@, p.item@)
                &&& p.item@.wf()
                &&& p.store_item@ == spec_encode(p.item@)
            },
            Err(e) => if table is None {
                e == TodoError::ConfigMissing
            } else {
                !create_input_ok(input@) && e == TodoError::InvalidIdentifier
            },
        },
{
    let table_name = match resolve_table_name(table) {
        Ok(t) => t,
        Err(e) => return Err(e),
    };
    if !is_valid_identifier(&input.owner_id) {
        return Err(TodoError::InvalidIdentifier);
    }
    match &input.item_id {
        Some(i) => {
            if !is_valid_identifier(i) {
                return Err(TodoError::InvalidIdentifier);
            }
        },
        None => {},
    }
    let item = fill_defaults(input);
    let store_item = encode(&item);
    Ok(PutPlan { table_name, item, store_item })
}

/// Prepares a read-one, update or delete: resolves the table name and
/// builds the primary key from the two path identifiers.
///
/// Fails with `ConfigMissing` exactly when no table name is configured,
/// and otherwise with `InvalidIdentifier` exactly when either path
/// identifier is malformed.
pub fn prepare_keyed(
    table: Option<String>,
    owner_id: &String,
    item_id: &String,
) -> (r: Result<KeyedPlan, TodoError>)
    ensures
        match r {
            Ok(p) => {
                &&& table matches Some(t) && p.table_name@ == t@
                &&& is_uuid_text(owner_id@) && is_uuid_text(item_id@)
                &&& p.key@.partition_value == owner_id@
                &&& p.key@.sort_value == item_id@
                &&& p.key_item@ == spec_key_item(p.key@)
            },
            Err(e) => if table is None {
                e == TodoError::ConfigMissing
            } else {
                (!is_uuid_text(owner_id@) || !is_uuid_text(item_id@))
                    && e == TodoError::InvalidIdentifier
            },
        },
{
    let table_name = match resolve_table_name(table) {
        Ok(t) => t,
        Err(e) => return Err(e),
    };
    let key = match build_primary_key(owner_id, item_id) {
        Ok(k) => k,
        Err(e) => return Err(e),
    };
    let key_item = key.to_store_key();
    Ok(KeyedPlan { table_name, key, key_item })
}

/// Prepares a list-by-owner: resolves the table name and validates the
/// owner identifier; the query is scoped to that owner's partition.
///
/// Fails with `ConfigMissing` exactly when no table name is configured,
/// and otherwise with `InvalidIdentifier` exactly when the owner
/// identifier is malformed.
pub fn prepare_list(table: Option<String>, owner_id: &String) -> (r: Result<QueryPlan, TodoError>)
    ensures
        match r {
            Ok(p) => {
                &&& table matches Some(t) && p.table_name@ == t@
                &&& is_uuid_text(owner_id@)
                &&& p.partition_value@ == owner_id@
            },
            Err(e) => if table is None {
                e == TodoError::ConfigMissing
            } else {
                !is_uuid_text(owner_id@) && e == TodoError::InvalidIdentifier
            },
        },
{
    let table_name = match resolve_table_name(table) {
        Ok(t) => t,
        Err(e) => return Err(e),
    };
    if !is_valid_identifier(owner_id) {
        return Err(TodoError::InvalidIdentifier);
    }
    Ok(QueryPlan { table_name, partition_value: owner_id.clone() })
}

/// Interprets the outcome of an unconditional put (create or update
/// write-back): success reports the written item unchanged, a failed
/// store call is `StoreUnavailable` with the underlying cause.
pub fn interpret_put(outcome: Result<(), String>, item: TodoItem) -> (r: Result<
    TodoItem,
    TodoError,
>)
    ensures
        match r {
            Ok(t) => outcome is Ok && t == item,
            Err(e) => outcome matches Err(m) && e == TodoError::StoreUnavailable(m),
        },
{
    match outcome {
        Ok(_) => Ok(item),
        Err(m) => Err(TodoError::StoreUnavailable(m)),
    }
}

/// What a point lookup's outcome means: an absent item is success with an
/// empty payload — absence is a valid response state, not an error — and
/// a present item is decoded, failing on malformed persisted data.
pub open spec fn spec_interpret_read_one(found: Option<Seq<EntryModel>>) -> Result<
    Option<TodoView>,
    TodoError,
> {
    match found {
        None => Ok(None),
        Some(it) => match spec_decode(it) {
            Some(t) => Ok(Some(t)),
            None => Err(TodoError::MalformedStoreItem),
        },
    }
}

/// Interprets a successful point lookup: `None` when the key holds no
/// item (success, not an error), the decoded item otherwise.
pub fn interpret_read_one(found: Option<StoreItem>) -> (r: Result<Option<TodoItem>, TodoError>)
    ensures
        match r {
            Ok(o) => spec_interpret_read_one(opt_item_view(found)) == Result::<
                Option<TodoView>,
                TodoError,
            >::Ok(
                match o {
                    Some(t) => Some(t@),
                    None => None,
                },
            ),
            Err(e) => spec_interpret_read_one(opt_item_view(found)) == Result::<
                Option<TodoView>,
                TodoError,
            >::Err(e),
        },
{
    if found.is_some() {
        let it = found.unwrap();
        match decode(&it) {
            Ok(t) => Ok(Some(t)),
            Err(e) => Err(e),
        }
    } else {
        Ok(None)
    }
}

/// Interprets the outcome of an unconditional delete: success whenever
/// the store call succeeded — the contract is "ensure absence", so the
/// result does not depend on whether the item existed before.
pub fn interpret_delete(outcome: Result<(), String>) -> (r: Result<bool, TodoError>)
    ensures
        match r {
            Ok(deleted) => outcome is Ok && deleted == true,
            Err(e) => outcome matches Err(m) && e == TodoError::StoreUnavailable(m),
        },
{
    match outcome {
        Ok(_) => Ok(true),
        Err(m) => Err(TodoError::StoreUnavailable(m)),
    }
}

/// The mutable fields an update's body may carry; the body never
/// addresses an item.
#[derive(Debug, Clone)]
pub struct UpdateBody {
    pub title: Option<String>,
    pub completed: Option<bool>,
}

/// The mathematical value of an [`UpdateBody`].
pub struct UpdateView {
    pub title: Option<Seq<char>>,
    pub completed: Option<bool>,
}

impl View for UpdateBody {
    type V = UpdateView;

    open spec fn view(&self) -> UpdateView {
        UpdateView {
            title: match self.title {
                Some(ref s) => Some(s@),
                None => None,
            },
            completed: self.completed,
        }
    }
}

/// Merges an update body into the stored item (partial merge, not a full
/// overwrite): the identity always comes from the path key, so the body
/// can never change which item is addressed; each mutable field is taken
/// from the body where supplied, else kept from the stored item, else —
/// when the key held no item — its default.
pub fn updated_item(key: &PrimaryKey, current: Option<TodoItem>, body: &UpdateBody) -> (r: TodoItem)
    ensures
        r@.user_id == key@.partition_value,
        r@.todo_id == key@.sort_value,
        r@.title == match body@.title {
            Some(t) => t,
            None => match current {
                Some(c) => c@.title,
                None => Seq::<char>::empty(),
            },
        },
        r@.completed == match body@.completed {
            Some(c) => c,
            None => match current {
                Some(c) => c@.completed,
                None => false,
            },
        },
{
    let title = match &body.title {
        Some(t) => t.clone(),
        None => match &current {
            Some(c) => c.title.clone(),
            None => crate::codec::create_blank_title(),
        },
    };
    let completed = match body.completed {
        Some(c) => c,
        None => match &current {
            Some(c) => c.completed,
            None => crate::codec::create_state(),
        },
    };
    TodoItem {
        user_id: key.partition_value.clone(),
        todo_id: key.sort_value.clone(),
        title,
        completed,
    }
}

} // verus!
