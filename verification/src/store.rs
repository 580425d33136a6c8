//! The table contents and every transition the endpoints perform on them:
//! an in-memory image of the `items` and `collections` tables, with the
//! service's semantics proved over mathematical views.

use vstd::prelude::*;
use vstd::pervasive::VecAdditionalExecFns;
use crate::codec::fresh_item_id;
use crate::model::{Collection, CollectionView, CreateItem, Item, ItemView, UpdateItem, UpdateItemView};
use crate::model::{default_collection, new_item_view, updated_item_view, wishlist_collection};
use crate::model::{default_collection_name, wishlist_collection_name};
use crate::order::{lemma_lex_lt_irreflexive, lemma_lex_lt_transitive, lemma_lex_lt_trichotomy};
use crate::order::{lex_lt, str_lt};

verus! {

/// Some item already carries this id.
pub open spec fn has_item_with_id(items: Seq<ItemView>, id: Seq<char>) -> bool {
    exists|i: int| 0 <= i < items.len() && items[i].id == id
}

/// No two items share an id.
pub open spec fn distinct_ids(items: Seq<ItemView>) -> bool {
    forall|i: int, j: int| 0 <= i < j < items.len() ==> items[i].id != items[j].id
}

/// Some collection carries this name.
pub open spec fn has_collection_named(cs: Seq<CollectionView>, name: Seq<char>) -> bool {
    exists|i: int| 0 <= i < cs.len() && cs[i].name == name
}

/// Collections stand in strictly ascending name order, so names are unique.
pub open spec fn sorted_by_name(cs: Seq<CollectionView>) -> bool {
    forall|i: int, j: int| 0 <= i < j < cs.len() ==> lex_lt(cs[i].name, cs[j].name)
}

/// The items whose collection is exactly the reserved wishlist name.
pub open spec fn wishlist_of(items: Seq<ItemView>) -> Seq<ItemView> {
    items.filter(|it: ItemView| it.collection == wishlist_collection())
}

/// Every item that carries `id` after the partial update, the rest untouched.
pub open spec fn items_updated(
    items: Seq<ItemView>,
    id: Seq<char>,
    upd: UpdateItemView,
    now: int,
) -> Seq<ItemView> {
    items.map_values(
        |it: ItemView|
            if it.id == id {
                updated_item_view(it, upd, now)
            } else {
                it
            },
    )
}

/// The items that survive deleting `id`.
pub open spec fn items_without(items: Seq<ItemView>, id: Seq<char>) -> Seq<ItemView> {
    items.filter(|it: ItemView| it.id != id)
}

/// Every item of the named collection moved to the default one.
pub open spec fn items_reassigned(items: Seq<ItemView>, name: Seq<char>) -> Seq<ItemView> {
    items.map_values(
        |it: ItemView|
            if it.collection == name {
                ItemView { collection: default_collection(), ..it }
            } else {
                it
            },
    )
}

/// The collections that survive deleting `name`.
pub open spec fn collections_without(cs: Seq<CollectionView>, name: Seq<char>) -> Seq<CollectionView> {
    cs.filter(|c: CollectionView| c.name != name)
}

/// Creating an item fails only when the freshly drawn id is already taken.
#[derive(Clone, Copy, Debug, PartialEq, Eq, Structural)]
pub enum StoreError {
    DuplicateId,
}

/// The two tables the service owns.
pub struct Store {
    items: Vec<Item>,
    collections: Vec<Collection>,
}

/// The mathematical image of a [`Store`]: both tables as sequences.
#[verifier::ext_equal]
pub ghost struct StoreView {
    pub items: Seq<ItemView>,
    pub collections: Seq<CollectionView>,
}

impl View for Store {
    type V = StoreView;

    closed spec fn view(&self) -> StoreView {
        StoreView { items: self.items.deep_view(), collections: self.collections.deep_view() }
    }
}

impl Store {
    /// Item ids are unique and collections stand sorted by name.
    pub open spec fn wf(self) -> bool {
        distinct_ids(self@.items) && sorted_by_name(self@.collections)
    }

    /// An empty store.
    pub fn new() -> (r: Store)
        ensures
            r@.items.len() == 0,
            r@.collections.len() == 0,
            r.wf(),
    {
        let r = Store { items: Vec::new(), collections: Vec::new() };
        proof {
            assert(r@.items =~= Seq::<ItemView>::empty());
            assert(r@.collections =~= Seq::<CollectionView>::empty());
        }
        r
    }

    /// All items, in storage order.
    pub fn list_items(&self) -> (r: Vec<Item>)
        ensures
            r.deep_view() == self@.items,
    {
        let mut out: Vec<Item> = Vec::new();
        let n = self.items.len();
        let mut i: usize = 0;
        while i < n
            invariant
                i <= n,
                n == self.items.len(),
                out.deep_view() == self@.items.subrange(0, i as int),
            decreases n - i,
        {
            let item = self.items[i].clone();
            proof {
                assert(out.deep_view().len() == i);
                assert(out@.len() == i);
            }
            out.push(item);
            proof {
                assert(out.deep_view() =~= self@.items.subrange(0, i + 1));
            }
            i = i + 1;
        }
        proof {
            assert(self@.items.subrange(0, n as int) =~= self@.items);
        }
        out
    }

    /// The items whose collection is exactly the reserved wishlist name.
    pub fn wishlist(&self) -> (r: Vec<Item>)
        ensures
            r.deep_view() == wishlist_of(self@.items),
    {
        let target = wishlist_collection_name();
        let mut out: Vec<Item> = Vec::new();
        let n = self.items.len();
        let mut i: usize = 0;
        while i < n
            invariant
                i <= n,
                n == self.items.len(),
                target@ == wishlist_collection(),
                out.deep_view() == wishlist_of(self@.items.subrange(0, i as int)),
            decreases n - i,
        {
            let it = &self.items[i];
            if it.collection == target {
                out.push(it.clone());
            }
            proof {
                lemma_filter_push(
                    self@.items.subrange(0, i as int),
                    self@.items[i as int],
                    |it: ItemView| it.collection == wishlist_collection(),
                );
                assert(self@.items.subrange(0, i + 1)
                    =~= self@.items.subrange(0, i as int).push(self@.items[i as int]));
                if it.collection == target {
                    assert(out.deep_view() =~= wishlist_of(self@.items.subrange(0, i + 1)));
                } else {
                    assert(out.deep_view() =~= wishlist_of(self@.items.subrange(0, i + 1)));
                }
            }
            i = i + 1;
        }
        proof {
            assert(self@.items.subrange(0, n as int) =~= self@.items);
        }
        out
    }

    fn find_item_index(&self, id: &String) -> (r: Option<usize>)
        ensures
            r matches Some(i) ==> i < self@.items.len() && self@.items[i as int].id == id@,
            r is Some <==> has_item_with_id(self@.items, id@),
    {
        let n = self.items.len();
        let mut i: usize = 0;
        while i < n
            invariant
                i <= n,
                n == self.items.len(),
                forall|j: int| 0 <= j < i ==> self@.items[j].id != id@,
            decreases n - i,
        {
            if self.items[i].id == *id {
                return Some(i);
            }
            i = i + 1;
        }
        None
    }

    fn find_collection_index(&self, name: &String) -> (r: Option<usize>)
        ensures
            r matches Some(i) ==> i < self@.collections.len() && self@.collections[i as int].name
                == name@,
            r is Some <==> has_collection_named(self@.collections, name@),
    {
        let n = self.collections.len();
        let mut i: usize = 0;
        while i < n
            invariant
                i <= n,
                n == self.collections.len(),
                forall|j: int| 0 <= j < i ==> self@.collections[j].name != name@,
            decreases n - i,
        {
            if self.collections[i].name == *name {
                proof {
                    assert(self@.collections[i as int].name == name@);
                }
                return Some(i);
            }
            i = i + 1;
        }
        None
    }

    /// Stores the record a create request describes, under the given id.
    /// Succeeds exactly when no item carries that id yet.
    pub fn create_item_with_id(&mut self, req: CreateItem, id: String, now: i64) -> (r: Result<
        Item,
        StoreError,
    >)
        requires
            old(self).wf(),
        ensures
            final(self).wf(),
            r is Ok <==> !has_item_with_id(old(self)@.items, id@),
            r matches Ok(item) ==> {
                &&& item@ == new_item_view(req@, id@, now as int)
                &&& final(self)@.items == old(self)@.items.push(item@)
                &&& final(self)@.collections == old(self)@.collections
            },
            r is Err ==> *final(self) == *old(self) && r == Err::<Item, StoreError>(
                StoreError::DuplicateId,
            ),
    {
        if self.find_item_index(&id).is_some() {
            return Err(StoreError::DuplicateId);
        }
        let item = Item::new(req, id, now);
        let copy = item.clone();
        self.items.push(item);
        proof {
            assert(self@.items =~= old(self)@.items.push(copy@));
        }
        Ok(copy)
    }

    /// Stores the record a create request describes, under a freshly drawn
    /// id, and hands the stored record back. Fails only when the drawn id
    /// is already taken.
    pub fn create_item(&mut self, req: CreateItem, now: i64) -> (r: Result<Item, StoreError>)
        requires
            old(self).wf(),
        ensures
            final(self).wf(),
            r matches Ok(item) ==> {
                &&& item@ == new_item_view(req@, item@.id, now as int)
                &&& item@.id.len() == 36
                &&& !has_item_with_id(old(self)@.items, item@.id)
                &&& final(self)@.items == old(self)@.items.push(item@)
                &&& final(self)@.collections == old(self)@.collections
            },
            r is Err ==> *final(self) == *old(self),
    {
        let id = fresh_item_id();
        self.create_item_with_id(req, id, now)
    }

    /// Applies a partial update to the item carrying `id` and refreshes its
    /// timestamp, returning the updated record; `None` exactly when no item
    /// carries the id.
    pub fn update_item(&mut self, id: &String, upd: UpdateItem, now: i64) -> (r: Option<Item>)
        requires
            old(self).wf(),
        ensures
            final(self).wf(),
            final(self)@.collections == old(self)@.collections,
            final(self)@.items == items_updated(old(self)@.items, id@, upd@, now as int),
            r is Some <==> has_item_with_id(old(self)@.items, id@),
            r matches Some(item) ==> exists|i: int|
                0 <= i < old(self)@.items.len()
                && (#[trigger] old(self)@.items[i]).id == id@
                && item@ == updated_item_view(old(self)@.items[i], upd@, now as int),
    {
        match self.find_item_index(id) {
            None => {
                proof {
                    assert(items_updated(self@.items, id@, upd@, now as int) =~= self@.items);
                }
                None
            },
            Some(i) => {
                let updated = self.items[i].updated(upd, now);
                let copy = updated.clone();
                self.items.set(i, updated);
                proof {
                    let ghost before = old(self)@.items;
                    let ghost after = self@.items;
                    assert(after.len() == before.len());
                    assert forall|k: int| 0 <= k < before.len() implies after[k]
                        == items_updated(before, id@, upd@, now as int)[k] by {
                        if k != i {
                            assert(before[k].id != before[i as int].id);
                        }
                    }
                    assert(after =~= items_updated(before, id@, upd@, now as int));
                    assert forall|k1: int, k2: int| 0 <= k1 < k2 < after.len() implies after[k1].id
                        != after[k2].id by {
                        assert(after[k1].id == before[k1].id);
                        assert(after[k2].id == before[k2].id);
                    }
                }
                Some(copy)
            },
        }
    }

    /// Removes every item carrying `id`; removing an absent id is a no-op.
    pub fn delete_item(&mut self, id: &String)
        requires
            old(self).wf(),
        ensures
            final(self).wf(),
            final(self)@.items == items_without(old(self)@.items, id@),
            final(self)@.collections == old(self)@.collections,
    {
        let mut out: Vec<Item> = Vec::new();
        let n = self.items.len();
        let mut i: usize = 0;
        while i < n
            invariant
                i <= n,
                n == self.items.len(),
                out.deep_view() == items_without(self@.items.subrange(0, i as int), id@),
            decreases n - i,
        {
            let it = &self.items[i];
            proof {
                assert(out.deep_view().len() <= i) by {
                    self@.items.subrange(0, i as int).lemma_filter_len(
                        |it: ItemView| it.id != id@,
                    );
                }
                assert(out@.len() == out.deep_view().len());
            }
            if !(it.id == *id) {
                out.push(it.clone());
            }
            proof {
                lemma_filter_push(
                    self@.items.subrange(0, i as int),
                    self@.items[i as int],
                    |it: ItemView| it.id != id@,
                );
                assert(self@.items.subrange(0, i + 1)
                    =~= self@.items.subrange(0, i as int).push(self@.items[i as int]));
                assert(out.deep_view() =~= items_without(self@.items.subrange(0, i + 1), id@));
            }
            i = i + 1;
        }
        self.items = out;
        proof {
            assert(old(self)@.items.subrange(0, n as int) =~= old(self)@.items);
            lemma_items_without_distinct(old(self)@.items, id@);
        }
    }

    /// All collections; with a well-formed store they stand in ascending
    /// name order.
    pub fn list_collections(&self) -> (r: Vec<Collection>)
        ensures
            r.deep_view() == self@.collections,
    {
        let mut out: Vec<Collection> = Vec::new();
        let n = self.collections.len();
        let mut i: usize = 0;
        while i < n
            invariant
                i <= n,
                n == self.collections.len(),
                out.deep_view() == self@.collections.subrange(0, i as int),
            decreases n - i,
        {
            let c = self.collections[i].clone();
            proof {
                assert(out.deep_view().len() == i);
                assert(out@.len() == i);
            }
            out.push(c);
            proof {
                assert(out.deep_view() =~= self@.collections.subrange(0, i + 1));
            }
            i = i + 1;
        }
        proof {
            assert(self@.collections.subrange(0, n as int) =~= self@.collections);
        }
        out
    }

    /// Insert-or-ignore: a collection named like an existing one changes
    /// nothing; a new name enters at its place in the order.
    pub fn create_collection(&mut self, name: String, now: i64)
        requires
            old(self).wf(),
        ensures
            final(self).wf(),
            final(self)@.items == old(self)@.items,
            has_collection_named(final(self)@.collections, name@),
            has_collection_named(old(self)@.collections, name@) ==> final(self)@.collections
                == old(self)@.collections,
            !has_collection_named(old(self)@.collections, name@) ==> exists|k: int|
                0 <= k <= old(self)@.collections.len() && final(self)@.collections == old(
                    self,
                )@.collections.insert(
                    k,
                    CollectionView { name: name@, created_at: now as int },
                ),
    {
        if self.find_collection_index(&name).is_some() {
            return ;
        }
        let n = self.collections.len();
        let mut k: usize = 0;
        let mut stop = false;
        while !stop && k < n
            invariant
                k <= n,
                n == self.collections.len(),
                !has_collection_named(self@.collections, name@),
                forall|j: int| 0 <= j < k ==> lex_lt(self@.collections[j].name, name@),
                stop ==> k < n && lex_lt(name@, self@.collections[k as int].name),
            decreases n - k + if stop { 0int } else { 1int },
        {
            let c = &self.collections[k];
            if str_lt(c.name.as_str(), name.as_str()) {
                k = k + 1;
            } else {
                proof {
                    lemma_lex_lt_trichotomy(self@.collections[k as int].name, name@);
                    assert(self@.collections[k as int].name != name@);
                }
                stop = true;
            }
        }
        proof {
            lemma_lex_lt_irreflexive(name@);
            assert forall|j: int| k <= j < n implies lex_lt(
                name@,
                self@.collections[j].name,
            ) by {
                if j > k {
                    lemma_lex_lt_transitive(
                        name@,
                        self@.collections[k as int].name,
                        self@.collections[j].name,
                    );
                }
            }
        }
        let entry = Collection { name: name, created_at: now };
        self.collections.insert(k, entry);
        proof {
            let ghost before = old(self)@.collections;
            let ghost after = self@.collections;
            let ghost nv = CollectionView { name: entry.name@, created_at: now as int };
            assert(after =~= before.insert(k as int, nv));
            assert forall|i: int, j: int| 0 <= i < j < after.len() implies lex_lt(
                after[i].name,
                after[j].name,
            ) by {
                if i < k {
                    assert(after[i] == before[i]);
                } else if i == k {
                    assert(after[i] == nv);
                } else {
                    assert(after[i] == before[i - 1]);
                }
                if j < k {
                    assert(after[j] == before[j]);
                } else if j == k {
                    assert(after[j] == nv);
                } else {
                    assert(after[j] == before[j - 1]);
                }
            }
            assert(after[k as int] == nv);
            assert(has_collection_named(after, name@));
        }
    }

    /// Deletes a collection: first every item of that collection moves to
    /// the default one, then the collection row goes; in that order, so no
    /// item is ever left referencing a removed collection.
    pub fn delete_collection(&mut self, name: &String)
        requires
            old(self).wf(),
        ensures
            final(self).wf(),
            final(self)@.items == items_reassigned(old(self)@.items, name@),
            final(self)@.collections == collections_without(old(self)@.collections, name@),
    {
        let fallback = default_collection_name();
        let mut moved: Vec<Item> = Vec::new();
        let n = self.items.len();
        let mut i: usize = 0;
        while i < n
            invariant
                i <= n,
                n == self.items.len(),
                fallback@ == default_collection(),
                moved.deep_view() == items_reassigned(self@.items.subrange(0, i as int), name@),
            decreases n - i,
        {
            let it = &self.items[i];
            proof {
                assert(moved.deep_view().len() == i);
                assert(moved@.len() == i);
            }
            if it.collection == *name {
                let mut replaced = it.clone();
                replaced.collection = fallback.clone();
                moved.push(replaced);
            } else {
                moved.push(it.clone());
            }
            proof {
                let ghost pre = self@.items.subrange(0, i as int);
                let ghost cur = self@.items.subrange(0, i + 1);
                assert(cur[i as int] == self@.items[i as int]);
                assert forall|kk: int| 0 <= kk < i + 1 implies moved.deep_view()[kk]
                    == items_reassigned(cur, name@)[kk] by {
                    if kk < i {
                        assert(moved.deep_view()[kk] == items_reassigned(pre, name@)[kk]);
                        assert(pre[kk] == cur[kk]);
                    }
                }
                assert(moved.deep_view() =~= items_reassigned(cur, name@));
            }
            i = i + 1;
        }
        self.items = moved;
        proof {
            assert(old(self)@.items.subrange(0, n as int) =~= old(self)@.items);
            let ghost before = old(self)@.items;
            let ghost after = self@.items;
            assert forall|k1: int, k2: int| 0 <= k1 < k2 < after.len() implies after[k1].id
                != after[k2].id by {
                assert(after[k1].id == before[k1].id);
                assert(after[k2].id == before[k2].id);
            }
        }
        let mut kept: Vec<Collection> = Vec::new();
        let m = self.collections.len();
        let mut j: usize = 0;
        while j < m
            invariant
                j <= m,
                m == self.collections.len(),
                kept.deep_view() == collections_without(
                    self@.collections.subrange(0, j as int),
                    name@,
                ),
            decreases m - j,
        {
            let c = &self.collections[j];
            proof {
                assert(kept.deep_view().len() <= j) by {
                    self@.collections.subrange(0, j as int).lemma_filter_len(
                        |c: CollectionView| c.name != name@,
                    );
                }
                assert(kept@.len() == kept.deep_view().len());
            }
            if !(c.name == *name) {
                kept.push(c.clone());
            }
            proof {
                lemma_filter_push(
                    self@.collections.subrange(0, j as int),
                    self@.collections[j as int],
                    |c: CollectionView| c.name != name@,
                );
                assert(self@.collections.subrange(0, j + 1)
                    =~= self@.collections.subrange(0, j as int).push(
                    self@.collections[j as int],
                ));
                assert(kept.deep_view() =~= collections_without(
                    self@.collections.subrange(0, j + 1),
                    name@,
                ));
            }
            j = j + 1;
        }
        self.collections = kept;
        proof {
            assert(old(self)@.collections.subrange(0, m as int) =~= old(self)@.collections);
            lemma_collections_without_sorted(old(self)@.collections, name@);
        }
    }
}

/// Two elements the filter keeps, in order, come from two positions of the
/// sequence, in the same order.
proof fn lemma_filter_ordered<A>(s: Seq<A>, pred: spec_fn(A) -> bool, k1: int, k2: int)
    requires
        0 <= k1 < k2 < s.filter(pred).len(),
    ensures
        exists|j1: int, j2: int|
            0 <= j1 < j2 < s.len() && s.filter(pred)[k1] == #[trigger] s[j1] && s.filter(
                pred,
            )[k2] == #[trigger] s[j2],
    decreases s.len(),
{
    reveal(Seq::filter);
    broadcast use Seq::lemma_filter_len;

    let f = s.filter(pred);
    let fd = s.drop_last().filter(pred);
    if pred(s.last()) {
        if k2 < fd.len() {
            lemma_filter_ordered(s.drop_last(), pred, k1, k2);
            let (j1, j2) = choose|j1: int, j2: int|
                0 <= j1 < j2 < s.drop_last().len() && fd[k1] == #[trigger] s.drop_last()[j1]
                    && fd[k2] == #[trigger] s.drop_last()[j2];
            assert(f[k1] == s[j1] && f[k2] == s[j2]);
        } else {
            lemma_filter_members(s.drop_last(), pred);
            let j1 = choose|j1: int|
                0 <= j1 < s.drop_last().len() && fd[k1] == #[trigger] s.drop_last()[j1];
            assert(f[k1] == s[j1] && f[k2] == s[s.len() - 1]);
        }
    } else {
        lemma_filter_ordered(s.drop_last(), pred, k1, k2);
        let (j1, j2) = choose|j1: int, j2: int|
            0 <= j1 < j2 < s.drop_last().len() && fd[k1] == #[trigger] s.drop_last()[j1] && fd[k2]
                == #[trigger] s.drop_last()[j2];
        assert(f[k1] == s[j1] && f[k2] == s[j2]);
    }
}

/// Every element the filter keeps is an element of the sequence.
pub(crate) proof fn lemma_filter_members<A>(s: Seq<A>, pred: spec_fn(A) -> bool)
    ensures
        forall|k: int| 0 <= k < s.filter(pred).len() ==> exists|j: int|
            0 <= j < s.len() && #[trigger] s.filter(pred)[k] == s[j],
    decreases s.len(),
{
    reveal(Seq::filter);
    if s.len() > 0 {
        lemma_filter_members(s.drop_last(), pred);
        let f = s.filter(pred);
        let fd = s.drop_last().filter(pred);
        assert forall|k: int| 0 <= k < f.len() implies exists|j: int|
            0 <= j < s.len() && #[trigger] f[k] == s[j] by {
            if k < fd.len() {
                let j = choose|j: int|
                    0 <= j < s.drop_last().len() && fd[k] == #[trigger] s.drop_last()[j];
                assert(f[k] == s[j]);
            } else {
                assert(pred(s.last()));
                assert(f[k] == s[s.len() - 1]);
            }
        }
    }
}

/// Removing items by id keeps the remaining ids distinct.
proof fn lemma_items_without_distinct(items: Seq<ItemView>, id: Seq<char>)
    requires
        distinct_ids(items),
    ensures
        distinct_ids(items_without(items, id)),
{
    let f = items_without(items, id);
    assert forall|k1: int, k2: int| 0 <= k1 < k2 < f.len() implies f[k1].id != f[k2].id by {
        lemma_filter_ordered(items, |it: ItemView| it.id != id, k1, k2);
    }
}

/// Removing collections by name keeps the rest sorted.
proof fn lemma_collections_without_sorted(cs: Seq<CollectionView>, name: Seq<char>)
    requires
        sorted_by_name(cs),
    ensures
        sorted_by_name(collections_without(cs, name)),
{
    let f = collections_without(cs, name);
    assert forall|k1: int, k2: int| 0 <= k1 < k2 < f.len() implies lex_lt(
        f[k1].name,
        f[k2].name,
    ) by {
        lemma_filter_ordered(cs, |c: CollectionView| c.name != name, k1, k2);
    }
}

/// Filtering a sequence extended by one element keeps the element exactly
/// when the predicate holds of it.
proof fn lemma_filter_push<A>(s: Seq<A>, x: A, pred: spec_fn(A) -> bool)
    ensures
        s.push(x).filter(pred) == if pred(x) {
            s.filter(pred).push(x)
        } else {
            s.filter(pred)
        },
{
    reveal(Seq::filter);
    assert(s.push(x).drop_last() =~= s);
    assert(s.push(x).last() == x);
}

} // verus!
