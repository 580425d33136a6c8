//! The data model: items, named collections, and the two request payloads,
//! together with the mathematical views the contracts speak of.

use vstd::prelude::*;
use crate::codec::encode_genres;
use crate::codec::genres_json;

verus! {

/// A tracked list entry, as it is stored and as it is returned.
pub struct Item {
    pub id: String,
    pub title: String,
    pub description: Option<String>,
    pub picture_url: Option<String>,
    pub author: Option<String>,
    /// JSON text of the genre list; `None` means "not set", not "empty".
    pub genres: Option<String>,
    /// Name of the collection the item belongs to.
    pub collection: String,
    pub completed: bool,
    /// Unix timestamp (seconds), refreshed on every successful update.
    pub updated_at: i64,
}

/// The mathematical image of an [`Item`].
#[verifier::ext_equal]
pub ghost struct ItemView {
    pub id: Seq<char>,
    pub title: Seq<char>,
    pub description: Option<Seq<char>>,
    pub picture_url: Option<Seq<char>>,
    pub author: Option<Seq<char>>,
    pub genres: Option<Seq<char>>,
    pub collection: Seq<char>,
    pub completed: bool,
    pub updated_at: int,
}

impl View for Item {
    type V = ItemView;

    open spec fn view(&self) -> ItemView {
        ItemView {
            id: self.id@,
            title: self.title@,
            description: self.description.deep_view(),
            picture_url: self.picture_url.deep_view(),
            author: self.author.deep_view(),
            genres: self.genres.deep_view(),
            collection: self.collection@,
            completed: self.completed,
            updated_at: self.updated_at as int,
        }
    }
}

impl DeepView for Item {
    type V = ItemView;

    open spec fn deep_view(&self) -> ItemView {
        self.view()
    }
}

/// A named grouping that items reference by name.
pub struct Collection {
    pub name: String,
    /// Unix timestamp (seconds) at creation.
    pub created_at: i64,
}

/// The mathematical image of a [`Collection`].
#[verifier::ext_equal]
pub ghost struct CollectionView {
    pub name: Seq<char>,
    pub created_at: int,
}

impl View for Collection {
    type V = CollectionView;

    open spec fn view(&self) -> CollectionView {
        CollectionView { name: self.name@, created_at: self.created_at as int }
    }
}

impl DeepView for Collection {
    type V = CollectionView;

    open spec fn deep_view(&self) -> CollectionView {
        self.view()
    }
}

/// The payload that creates an item; everything but the title is optional.
pub struct CreateItem {
    pub title: String,
    pub description: Option<String>,
    pub picture_url: Option<String>,
    pub author: Option<String>,
    pub genres: Option<Vec<String>>,
    pub collection: Option<String>,
}

/// The mathematical image of a [`CreateItem`] payload.
#[verifier::ext_equal]
pub ghost struct CreateItemView {
    pub title: Seq<char>,
    pub description: Option<Seq<char>>,
    pub picture_url: Option<Seq<char>>,
    pub author: Option<Seq<char>>,
    pub genres: Option<Seq<Seq<char>>>,
    pub collection: Option<Seq<char>>,
}

impl View for CreateItem {
    type V = CreateItemView;

    open spec fn view(&self) -> CreateItemView {
        CreateItemView {
            title: self.title@,
            description: self.description.deep_view(),
            picture_url: self.picture_url.deep_view(),
            author: self.author.deep_view(),
            genres: self.genres.deep_view(),
            collection: self.collection.deep_view(),
        }
    }
}

/// The partial-update payload: only the fields that are present change.
pub struct UpdateItem {
    pub completed: Option<bool>,
    pub description: Option<String>,
    pub picture_url: Option<String>,
    pub author: Option<String>,
    pub genres: Option<Vec<String>>,
    pub collection: Option<String>,
}

/// The mathematical image of an [`UpdateItem`] payload.
#[verifier::ext_equal]
pub ghost struct UpdateItemView {
    pub completed: Option<bool>,
    pub description: Option<Seq<char>>,
    pub picture_url: Option<Seq<char>>,
    pub author: Option<Seq<char>>,
    pub genres: Option<Seq<Seq<char>>>,
    pub collection: Option<Seq<char>>,
}

impl View for UpdateItem {
    type V = UpdateItemView;

    open spec fn view(&self) -> UpdateItemView {
        UpdateItemView {
            completed: self.completed,
            description: self.description.deep_view(),
            picture_url: self.picture_url.deep_view(),
            author: self.author.deep_view(),
            genres: self.genres.deep_view(),
            collection: self.collection.deep_view(),
        }
    }
}

/// The collection every item falls back to.
pub open spec fn default_collection() -> Seq<char> {
    "Default"@
}

/// The reserved collection the wishlist view reads.
pub open spec fn wishlist_collection() -> Seq<char> {
    "Wishlist"@
}

/// The record that creating an item produces: the payload's fields, the
/// fresh id, `completed` false, the default collection when none was named,
/// and the genre list replaced by its JSON text.
pub open spec fn new_item_view(req: CreateItemView, id: Seq<char>, now: int) -> ItemView {
    ItemView {
        id: id,
        title: req.title,
        description: req.description,
        picture_url: req.picture_url,
        author: req.author,
        genres: match req.genres {
            Some(genres) => Some(genres_json(genres)),
            None => None,
        },
        collection: match req.collection {
            Some(name) => name,
            None => default_collection(),
        },
        completed: false,
        updated_at: now,
    }
}

/// The record after a partial update: fields named by the payload take its
/// values, the rest keep theirs, and `updated_at` is refreshed in any case.
pub open spec fn updated_item_view(it: ItemView, upd: UpdateItemView, now: int) -> ItemView {
    ItemView {
        id: it.id,
        title: it.title,
        completed: match upd.completed {
            Some(completed) => completed,
            None => it.completed,
        },
        description: match upd.description {
            Some(description) => Some(description),
            None => it.description,
        },
        picture_url: match upd.picture_url {
            Some(picture_url) => Some(picture_url),
            None => it.picture_url,
        },
        author: match upd.author {
            Some(author) => Some(author),
            None => it.author,
        },
        genres: match upd.genres {
            Some(genres) => Some(genres_json(genres)),
            None => it.genres,
        },
        collection: match upd.collection {
            Some(name) => name,
            None => it.collection,
        },
        updated_at: now,
    }
}

/// The name of the fallback collection, as a value.
pub fn default_collection_name() -> (r: String)
    ensures
        r@ == default_collection(),
{
    String::from_str("Default")
}

/// The name of the reserved wishlist collection, as a value.
pub fn wishlist_collection_name() -> (r: String)
    ensures
        r@ == wishlist_collection(),
{
    String::from_str("Wishlist")
}

fn clone_opt_string(o: &Option<String>) -> (r: Option<String>)
    ensures
        r.deep_view() == o.deep_view(),
{
    match o {
        Some(s) => Some(s.clone()),
        None => None,
    }
}

impl Item {
    /// Builds the record that a create request stores and returns.
    pub fn new(req: CreateItem, id: String, now: i64) -> (r: Item)
        ensures
            r@ == new_item_view(req@, id@, now as int),
    {
        let genres = match &req.genres {
            Some(genres) => Some(encode_genres(genres)),
            None => None,
        };
        let collection = match req.collection {
            Some(name) => name,
            None => default_collection_name(),
        };
        Item {
            id: id,
            title: req.title,
            description: req.description,
            picture_url: req.picture_url,
            author: req.author,
            genres: genres,
            collection: collection,
            completed: false,
            updated_at: now,
        }
    }

    /// Builds the record that a partial update leaves behind.
    pub fn updated(&self, upd: UpdateItem, now: i64) -> (r: Item)
        ensures
            r@ == updated_item_view(self@, upd@, now as int),
    {
        let completed = match upd.completed {
            Some(completed) => completed,
            None => self.completed,
        };
        let description = match upd.description {
            Some(description) => Some(description),
            None => clone_opt_string(&self.description),
        };
        let picture_url = match upd.picture_url {
            Some(picture_url) => Some(picture_url),
            None => clone_opt_string(&self.picture_url),
        };
        let author = match upd.author {
            Some(author) => Some(author),
            None => clone_opt_string(&self.author),
        };
        let genres = match &upd.genres {
            Some(genres) => Some(encode_genres(genres)),
            None => clone_opt_string(&self.genres),
        };
        let collection = match upd.collection {
            Some(name) => name,
            None => self.collection.clone(),
        };
        Item {
            id: self.id.clone(),
            title: self.title.clone(),
            description: description,
            picture_url: picture_url,
            author: author,
            genres: genres,
            collection: collection,
            completed: completed,
            updated_at: now,
        }
    }
}

impl Clone for Item {
    /// An item's copy carries the same view.
    fn clone(&self) -> (r: Item)
        ensures
            r@ == self@,
    {
        Item {
            id: self.id.clone(),
            title: self.title.clone(),
            description: clone_opt_string(&self.description),
            picture_url: clone_opt_string(&self.picture_url),
            author: clone_opt_string(&self.author),
            genres: clone_opt_string(&self.genres),
            collection: self.collection.clone(),
            completed: self.completed,
            updated_at: self.updated_at,
        }
    }
}

impl Clone for Collection {
    /// A collection's copy carries the same view.
    fn clone(&self) -> (r: Collection)
        ensures
            r@ == self@,
    {
        Collection { name: self.name.clone(), created_at: self.created_at }
    }
}

} // verus!
