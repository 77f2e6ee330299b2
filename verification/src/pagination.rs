//! The pagination normalizer.
//!
//! A range query can come back in four shapes: items present or absent,
//! continuation key present or absent. This module reconciles all four
//! into one deterministic response shape, decoding every returned item
//! and deriving a page token from the continuation key when one exists.

use vstd::prelude::*;

use crate::codec::TodoItem;
use crate::codec::TodoView;
use crate::codec::decode;
use crate::codec::spec_decode;
use crate::codec::user_id_column;
use crate::codec::todo_id_column;
use crate::error::TodoError;
use crate::store::EntryModel;
use crate::store::StoreItem;
use crate::store::StoreValue;
use crate::store::ValueModel;
use crate::store::lookup;
use crate::store::opt_item_view;

verus! {

/// The continuation marker echoed back to fetch the next page.
///
/// Only textual key encodings are supported: a key attribute of any other
/// type is left out, a known limitation.
#[derive(Debug, Clone, PartialEq, Eq)]
pub struct PageToken {
    pub partition_value: Option<String>,
    pub sort_value: Option<String>,
}

/// The mathematical value of a [`PageToken`].
pub struct TokenView {
    pub partition_value: Option<Seq<char>>,
    pub sort_value: Option<Seq<char>>,
}

impl View for PageToken {
    type V = TokenView;

    open spec fn view(&self) -> TokenView {
        TokenView {
            partition_value: match self.partition_value {
                Some(ref s) => Some(s@),
                None => None,
            },
            sort_value: match self.sort_value {
                Some(ref s) => Some(s@),
                None => None,
            },
        }
    }
}

/// One page of a list operation: the decoded items in store order, and a
/// page token exactly when more results exist beyond this page.
#[derive(Debug, Clone, PartialEq, Eq)]
pub struct PagedResult {
    pub page_token: Option<PageToken>,
    pub items: Vec<TodoItem>,
}

/// The mathematical value of a [`PagedResult`].
pub struct PagedView {
    pub page_token: Option<TokenView>,
    pub items: Seq<TodoView>,
}

impl View for PagedResult {
    type V = PagedView;

    open spec fn view(&self) -> PagedView {
        PagedView {
            page_token: match self.page_token {
                Some(ref t) => Some(t@),
                None => None,
            },
            items: self.items@.map(|i: int, t: TodoItem| t@),
        }
    }
}

/// The token a continuation key yields: each textual key attribute is
/// kept, anything else is left out.
pub open spec fn spec_token_from_key(key: Seq<EntryModel>) -> TokenView {
    TokenView {
        partition_value: match lookup(key, "user_id"@) {
            Some(ValueModel::Text(s)) => Some(s),
            _ => None,
        },
        sort_value: match lookup(key, "todo_id"@) {
            Some(ValueModel::Text(s)) => Some(s),
            _ => None,
        },
    }
}

impl PageToken {
    /// Derives a page token from the continuation key of a range query.
    pub fn from_continuation_key(key: &StoreItem) -> (r: PageToken)
        ensures
            r@ == spec_token_from_key(key@),
    {
        let partition_value = match key.get(&user_id_column()) {
            Some(StoreValue::Text(s)) => Some(s.clone()),
            _ => None,
        };
        let sort_value = match key.get(&todo_id_column()) {
            Some(StoreValue::Text(s)) => Some(s.clone()),
            _ => None,
        };
        PageToken { partition_value, sort_value }
    }
}

/// Decodes every item of a page, in order; `None` as soon as any one of
/// them is malformed (no partial pages).
pub open spec fn spec_decode_all(items: Seq<Seq<EntryModel>>) -> Option<Seq<TodoView>>
    decreases items.len(),
{
    if items.len() == 0 {
        Some(Seq::empty())
    } else {
        match (spec_decode_all(items.drop_last()), spec_decode(items.last())) {
            (Some(init), Some(t)) => Some(init.push(t)),
            _ => None,
        }
    }
}

/// The mathematical value of an optional batch of store items.
pub open spec fn spec_items_view(items: Option<Vec<StoreItem>>) -> Option<Seq<Seq<EntryModel>>> {
    match items {
        Some(v) => Some(v@.map(|i: int, it: StoreItem| it@)),
        None => None,
    }
}

/// The one response shape of a range query's four result shapes: absent
/// items mean an empty page, the items of a present batch are decoded in
/// order, and a page token is attached exactly when a continuation key
/// came back; `None` when any item of the batch is malformed.
pub open spec fn spec_normalize(
    items: Option<Seq<Seq<EntryModel>>>,
    key: Option<Seq<EntryModel>>,
) -> Option<PagedView> {
    let decoded = match items {
        Some(batch) => spec_decode_all(batch),
        None => Some(Seq::empty()),
    };
    match decoded {
        Some(ts) => Some(
            PagedView {
                page_token: match key {
                    Some(k) => Some(spec_token_from_key(k)),
                    None => None,
                },
                items: ts,
            },
        ),
        None => None,
    }
}

/// Normalizes a range query's result into one page.
///
/// Reproduces the policy table exactly: items and continuation key each
/// present or absent, in all four combinations. A decoding failure inside
/// the batch aborts the whole page with `MalformedStoreItem`.
pub fn normalize(
    items: Option<Vec<StoreItem>>,
    continuation_key: Option<StoreItem>,
) -> (r: Result<PagedResult, TodoError>)
    ensures
        match r {
            Ok(p) => spec_normalize(spec_items_view(items), opt_item_view(continuation_key))
                == Some(p@),
            Err(e) => spec_normalize(spec_items_view(items), opt_item_view(continuation_key))
                is None && e == TodoError::MalformedStoreItem,
        },
{
    let page_token = if continuation_key.is_some() {
        let k = continuation_key.unwrap();
        Some(PageToken::from_continuation_key(&k))
    } else {
        None
    };
    let mut out: Vec<TodoItem> = Vec::new();
    if items.is_some() {
        let batch = items.unwrap();
        let n = batch.len();
        let ghost views = batch@.map(|i: int, it: StoreItem| it@);
        proof {
            assert(spec_items_view(items) == Some(views)) by {
                assert(spec_items_view(items)->Some_0 =~= views);
            }
        }
        for i in 0..n
            invariant
                n == batch.len(),
                views == batch@.map(|i: int, it: StoreItem| it@),
                spec_items_view(items) == Some(views),
                spec_decode_all(views.take(i as int))
                    == Some(out@.map(|j: int, t: TodoItem| t@)),
        {
            let item = &batch[i];
            match decode(item) {
                Ok(t) => {
                    out.push(t);
                    proof {
                        assert(views.take(i + 1).drop_last() =~= views.take(i as int));
                        assert(views.take(i + 1).last() == item@);
                        assert(out@.map(|j: int, t: TodoItem| t@)
                            =~= out@.drop_last().map(|j: int, t: TodoItem| t@)
                                .push(out@.last()@));
                    }
                },
                Err(_) => {
                    proof {
                        assert(views[i as int] == batch@[i as int]@);
                        lemma_malformed_batch(views, i as int);
                    }
                    return Err(TodoError::MalformedStoreItem);
                },
            }
        }
        proof {
            assert(views.take(n as int) =~= views);
        }
    }
    let r = PagedResult { page_token, items: out };
    proof {
        assert(r@.items =~= r.items@.map(|j: int, t: TodoItem| t@));
        if items is None {
            assert(r@.items =~= Seq::<TodoView>::empty());
        }
    }
    Ok(r)
}

/// A malformed item anywhere in a batch makes the whole batch malformed.
proof fn lemma_malformed_batch(items: Seq<Seq<EntryModel>>, i: int)
    requires
        0 <= i < items.len(),
        spec_decode(items[i]) is None,
    ensures
        spec_decode_all(items) is None,
    decreases items.len(),
{
    if items.len() > 0 {
        if i == items.len() - 1 {
        } else {
            lemma_malformed_batch(items.drop_last(), i);
        }
    }
}

/// With no items and no continuation key, the page is empty and carries
/// no token.
pub proof fn lemma_normalize_empty()
    ensures
        spec_normalize(None, None) == Some(
            PagedView { page_token: None, items: Seq::<TodoView>::empty() },
        ),
{
}

/// The defensive shape: an empty batch beside a continuation key yields
/// an empty item list with the token still derived from the key.
pub proof fn lemma_normalize_defensive(k: Seq<EntryModel>)
    ensures
        spec_normalize(Some(Seq::empty()), Some(k)) == Some(
            PagedView { page_token: Some(spec_token_from_key(k)), items: Seq::<TodoView>::empty() },
        ),
{
}

/// A two-item batch without a continuation key decodes both items, in
/// order, and attaches no token.
pub proof fn lemma_normalize_two(a: Seq<EntryModel>, b: Seq<EntryModel>)
    ensures
        spec_decode(a) is Some && spec_decode(b) is Some ==> spec_normalize(
            Some(seq![a, b]),
            None,
        ) == Some(
            PagedView {
                page_token: None,
                items: seq![spec_decode(a).unwrap(), spec_decode(b).unwrap()],
            },
        ),
{
    if spec_decode(a) is Some && spec_decode(b) is Some {
        let batch = seq![a, b];
        assert(batch.drop_last() =~= seq![a]);
        assert(batch.drop_last().drop_last() =~= Seq::<Seq<EntryModel>>::empty());
        assert(spec_decode_all(batch)
            == Some(seq![spec_decode(a).unwrap(), spec_decode(b).unwrap()]))
        by {
            assert(seq![a].last() == a);
            assert(seq![a, b].last() == b);
            assert(spec_decode_all(Seq::<Seq<EntryModel>>::empty())
                == Some(Seq::<TodoView>::empty()));
            assert(spec_decode_all(seq![a])
                == Some(Seq::<TodoView>::empty().push(spec_decode(a).unwrap())));
            assert(Seq::<TodoView>::empty().push(spec_decode(a).unwrap()).push(
                spec_decode(b).unwrap(),
            ) =~= seq![spec_decode(a).unwrap(), spec_decode(b).unwrap()]);
        }
    }
}

} // verus!
