//! The key builder: the two-part primary key of a todo item.

use vstd::prelude::*;

use crate::codec::user_id_column;
use crate::codec::todo_id_column;
use crate::error::TodoError;
use crate::ids::is_uuid_text;
use crate::ids::is_valid_identifier;
use crate::store::EntryModel;
use crate::store::StoreEntry;
use crate::store::StoreItem;
use crate::store::StoreValue;
use crate::store::ValueModel;

verus! {

/// The composite primary key of one todo item: the owner identifier as
/// partition value and the item identifier as sort value.
#[derive(Debug, Clone, PartialEq, Eq)]
pub struct PrimaryKey {
    pub partition_value: String,
    pub sort_value: String,
}

/// The mathematical value of a [`PrimaryKey`].
pub struct KeyView {
    pub partition_value: Seq<char>,
    pub sort_value: Seq<char>,
}

impl View for PrimaryKey {
    type V = KeyView;

    open spec fn view(&self) -> KeyView {
        KeyView { partition_value: self.partition_value@, sort_value: self.sort_value@ }
    }
}

/// Builds the primary key from the two path identifiers.
///
/// Succeeds exactly when both are syntactically valid identifiers; the
/// key then carries them unchanged. Rejects anything else with
/// `InvalidIdentifier`.
pub fn build_primary_key(owner_id: &String, item_id: &String) -> (r: Result<PrimaryKey, TodoError>)
    ensures
        match r {
            Ok(k) => is_uuid_text(owner_id@) && is_uuid_text(item_id@)
                && k@.partition_value == owner_id@ && k@.sort_value == item_id@,
            Err(e) => (!is_uuid_text(owner_id@) || !is_uuid_text(item_id@))
                && e == TodoError::InvalidIdentifier,
        },
{
    if !is_valid_identifier(owner_id) || !is_valid_identifier(item_id) {
        return Err(TodoError::InvalidIdentifier);
    }
    Ok(PrimaryKey { partition_value: owner_id.clone(), sort_value: item_id.clone() })
}

/// The store representation of a primary key: its two key attributes,
/// both textual.
pub open spec fn spec_key_item(k: KeyView) -> Seq<EntryModel> {
    seq![
        EntryModel { name: "user_id"@, value: ValueModel::Text(k.partition_value) },
        EntryModel { name: "todo_id"@, value: ValueModel::Text(k.sort_value) },
    ]
}

impl PrimaryKey {
    /// Renders the key as the attribute map a point lookup or delete sends.
    pub fn to_store_key(&self) -> (r: StoreItem)
        ensures
            r@ == spec_key_item(self@),
    {
        let mut entries: Vec<StoreEntry> = Vec::new();
        entries.push(StoreEntry {
            name: user_id_column(),
            value: StoreValue::Text(self.partition_value.clone()),
        });
        entries.push(StoreEntry {
            name: todo_id_column(),
            value: StoreValue::Text(self.sort_value.clone()),
        });
        let r = StoreItem { entries };
        proof {
            assert(r@ =~= spec_key_item(self@));
        }
        r
    }
}

} // verus!
