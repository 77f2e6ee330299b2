//! The crate's model of the store's native item representation.
//!
//! A store item is a sequence of named attributes. Only textual and boolean
//! attribute values carry data this layer reads; every other attribute type
//! is kept opaque. Attribute names are looked up first-match, and the items
//! this layer writes never repeat a name.

use vstd::prelude::*;

verus! {

/// One attribute value of a store item.
#[derive(Debug, Clone, PartialEq, Eq)]
pub enum StoreValue {
    /// A textual value.
    Text(String),
    /// A boolean value.
    Flag(bool),
    /// A value of any other attribute type; this layer never reads inside it.
    Other,
}

/// The mathematical value of a [`StoreValue`].
pub enum ValueModel {
    Text(Seq<char>),
    Flag(bool),
    Other,
}

impl View for StoreValue {
    type V = ValueModel;

    open spec fn view(&self) -> ValueModel {
        match self {
            StoreValue::Text(s) => ValueModel::Text(s@),
            StoreValue::Flag(b) => ValueModel::Flag(*b),
            StoreValue::Other => ValueModel::Other,
        }
    }
}

/// One named attribute of a store item.
#[derive(Debug, Clone, PartialEq, Eq)]
pub struct StoreEntry {
    pub name: String,
    pub value: StoreValue,
}

/// The mathematical value of a [`StoreEntry`].
pub struct EntryModel {
    pub name: Seq<char>,
    pub value: ValueModel,
}

impl View for StoreEntry {
    type V = EntryModel;

    open spec fn view(&self) -> EntryModel {
        EntryModel { name: self.name@, value: self.value@ }
    }
}

/// A store item: the attributes of one record, in the order the store
/// client reported them.
#[derive(Debug, Clone, PartialEq, Eq)]
pub struct StoreItem {
    pub entries: Vec<StoreEntry>,
}

impl View for StoreItem {
    type V = Seq<EntryModel>;

    open spec fn view(&self) -> Seq<EntryModel> {
        self.entries@.map(|i: int, e: StoreEntry| e@)
    }
}

/// The mathematical value of an optional store item.
pub open spec fn opt_item_view(item: Option<StoreItem>) -> Option<Seq<EntryModel>> {
    match item {
        Some(it) => Some(it@),
        None => None,
    }
}

/// The value of the first attribute named `name`, if any.
pub open spec fn lookup(item: Seq<EntryModel>, name: Seq<char>) -> Option<ValueModel>
    decreases item.len(),
{
    if item.len() == 0 {
        None
    } else if item[0].name == name {
        Some(item[0].value)
    } else {
        lookup(item.drop_first(), name)
    }
}

impl StoreItem {
    /// Looks up an attribute by name; first match wins.
    pub fn get(&self, name: &String) -> (r: Option<&StoreValue>)
        ensures
            match r {
                Some(v) => lookup(self@, name@) == Some(v@),
                None => lookup(self@, name@) is None,
            },
    {
        let n = self.entries.len();
        proof {
            assert(self@.skip(0) =~= self@);
        }
        for i in 0..n
            invariant
                n == self.entries.len(),
                lookup(self@, name@) == lookup(self@.skip(i as int), name@),
        {
            proof {
                assert(self@.skip(i as int).drop_first() =~= self@.skip(i + 1));
                assert(self@.skip(i as int)[0] == self@[i as int]);
            }
            if self.entries[i].name == *name {
                return Some(&self.entries[i].value);
            }
        }
        proof {
            assert(self@.skip(n as int) =~= Seq::<EntryModel>::empty());
        }
        None
    }
}

} // verus!
