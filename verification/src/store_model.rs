//! The client-facing contract of the external store, as far as the laws
//! of this layer need it.
//!
//! The store keeps at most one item per composite primary key, with
//! atomic single-item put, get and delete. That contract is modelled here
//! as a map from key values to item representations; the store's own
//! replication and consistency machinery is out of scope.

use vstd::prelude::*;

use crate::codec::TodoView;
use crate::error::TodoError;
use crate::handlers::spec_interpret_read_one;
use crate::keys::KeyView;
use crate::store::EntryModel;

verus! {

/// A point lookup: the item stored under the key, if any.
pub open spec fn store_get(
    contents: Map<KeyView, Seq<EntryModel>>,
    key: KeyView,
) -> Option<Seq<EntryModel>> {
    if contents.contains_key(key) {
        Some(contents[key])
    } else {
        None
    }
}

/// An unconditional put: last write wins.
pub open spec fn store_put(
    contents: Map<KeyView, Seq<EntryModel>>,
    key: KeyView,
    item: Seq<EntryModel>,
) -> Map<KeyView, Seq<EntryModel>> {
    contents.insert(key, item)
}

/// An unconditional delete: ensures absence, whether or not the key held
/// an item.
pub open spec fn store_delete(
    contents: Map<KeyView, Seq<EntryModel>>,
    key: KeyView,
) -> Map<KeyView, Seq<EntryModel>> {
    contents.remove(key)
}

/// Delete is idempotent: deleting a key a second time changes nothing —
/// the contract is "ensure absence", not "assert prior presence" — and
/// either delete leaves the key absent. Both calls report success, since
/// a delete's result never depends on prior presence.
pub proof fn lemma_delete_idempotent(contents: Map<KeyView, Seq<EntryModel>>, key: KeyView)
    ensures
        store_delete(store_delete(contents, key), key) == store_delete(contents, key),
        store_get(store_delete(contents, key), key) is None,
{
    assert(store_delete(store_delete(contents, key), key) =~= store_delete(contents, key));
}

/// Reading a key that was never created succeeds with an empty payload:
/// the store holds nothing under it, and an absent item interprets as
/// success, not as an error.
pub proof fn lemma_read_never_created(contents: Map<KeyView, Seq<EntryModel>>, key: KeyView)
    ensures
        !contents.contains_key(key) ==> spec_interpret_read_one(store_get(contents, key))
            == Result::<Option<TodoView>, TodoError>::Ok(None),
{
}

} // verus!
