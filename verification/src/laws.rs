//! The properties the service warrants, stated and proved over the
//! mathematical views that the operations' contracts use.

use vstd::prelude::*;
use crate::codec::{encode_genres, genres_json, parse_genres};
use crate::model::{CollectionView, CreateItemView, ItemView, UpdateItemView};
use crate::model::{default_collection, new_item_view, updated_item_view, wishlist_collection};
use crate::store::{collections_without, has_collection_named, items_reassigned, wishlist_of};
use crate::store::lemma_filter_members;

verus! {

/// Round trip, record side: the record a create request stores keeps every
/// field of the request, holds the genre list as its JSON text, and listing
/// after creating yields it as the last record.
pub proof fn lemma_create_round_trip(
    items: Seq<ItemView>,
    req: CreateItemView,
    id: Seq<char>,
    now: int,
)
    ensures
        items.push(new_item_view(req, id, now)).last() == new_item_view(req, id, now),
        new_item_view(req, id, now).title == req.title,
        new_item_view(req, id, now).description == req.description,
        new_item_view(req, id, now).picture_url == req.picture_url,
        new_item_view(req, id, now).author == req.author,
        req.genres matches Some(g) ==> new_item_view(req, id, now).genres == Some(
            genres_json(g),
        ),
        req.genres is None ==> new_item_view(req, id, now).genres is None,
        req.collection matches Some(c) ==> new_item_view(req, id, now).collection == c,
{
}

/// Round trip, genre side: the JSON text stored at creation decodes back
/// to the very list the request carried.
pub fn genres_round_trip(genres: &Vec<String>) -> (r: Option<Vec<String>>)
    ensures
        r matches Some(v) && v.deep_view() == genres.deep_view(),
{
    let text = encode_genres(genres);
    parse_genres(text.as_str())
}

/// A partial update that names only `completed` keeps every other field,
/// takes the payload's flag, and moves the timestamp forward, under a
/// clock that does not run backwards.
pub proof fn lemma_partial_update_preserves(item: ItemView, upd: UpdateItemView, now: int)
    requires
        upd.description is None,
        upd.picture_url is None,
        upd.author is None,
        upd.genres is None,
        upd.collection is None,
        now >= item.updated_at,
    ensures
        updated_item_view(item, upd, now).id == item.id,
        updated_item_view(item, upd, now).title == item.title,
        updated_item_view(item, upd, now).description == item.description,
        updated_item_view(item, upd, now).picture_url == item.picture_url,
        updated_item_view(item, upd, now).author == item.author,
        updated_item_view(item, upd, now).genres == item.genres,
        updated_item_view(item, upd, now).collection == item.collection,
        upd.completed matches Some(c) ==> updated_item_view(item, upd, now).completed == c,
        updated_item_view(item, upd, now).updated_at >= item.updated_at,
{
}

/// A creation payload without a collection lands in the default one.
pub proof fn lemma_default_collection(req: CreateItemView, id: Seq<char>, now: int)
    requires
        req.collection is None,
    ensures
        new_item_view(req, id, now).collection == default_collection(),
{
}

/// An item stands in the wishlist exactly when its collection is the
/// reserved wishlist name.
pub proof fn lemma_wishlist_membership(items: Seq<ItemView>, item: ItemView)
    ensures
        wishlist_of(items).contains(item) <==> items.contains(item) && item.collection
            == wishlist_collection(),
{
    if wishlist_of(items).contains(item) {
        let k = choose|k: int|
            0 <= k < wishlist_of(items).len() && wishlist_of(items)[k] == item;
        items.lemma_filter_pred(|it: ItemView| it.collection == wishlist_collection(), k);
        lemma_filter_members(items, |it: ItemView| it.collection == wishlist_collection());
        let j = choose|j: int| 0 <= j < items.len() && wishlist_of(items)[k] == items[j];
        assert(items[j] == item);
    }
    if items.contains(item) && item.collection == wishlist_collection() {
        let j = choose|j: int| 0 <= j < items.len() && items[j] == item;
        items.lemma_filter_contains(|it: ItemView| it.collection == wishlist_collection(), j);
    }
}

/// After deleting collection `name`: every item that referenced it now
/// references the default collection and keeps its identity, every other
/// item is untouched, and no collection of that name remains.
pub proof fn lemma_collection_delete(
    items: Seq<ItemView>,
    cs: Seq<CollectionView>,
    name: Seq<char>,
    k: int,
)
    requires
        0 <= k < items.len(),
    ensures
        items_reassigned(items, name).len() == items.len(),
        items[k].collection == name ==> items_reassigned(items, name)[k].collection
            == default_collection(),
        items[k].collection == name ==> items_reassigned(items, name)[k].id == items[k].id,
        items[k].collection != name ==> items_reassigned(items, name)[k] == items[k],
        !has_collection_named(collections_without(cs, name), name),
{
    if has_collection_named(collections_without(cs, name), name) {
        let i = choose|i: int|
            0 <= i < collections_without(cs, name).len() && collections_without(cs, name)[i].name
                == name;
        cs.lemma_filter_pred(|c: CollectionView| c.name != name, i);
    }
}

} // verus!
