use list_service::model::{CreateItem, UpdateItem};
use list_service::store::{Store, StoreError};

fn full_request() -> CreateItem {
    CreateItem {
        title: "Dune".to_string(),
        description: Some("A desert planet".to_string()),
        picture_url: Some("http://localhost/dune.png".to_string()),
        author: Some("Frank Herbert".to_string()),
        genres: Some(vec!["sci-fi".to_string(), "classic".to_string()]),
        collection: Some("Favourites".to_string()),
    }
}

fn empty_update() -> UpdateItem {
    UpdateItem {
        completed: None,
        description: None,
        picture_url: None,
        author: None,
        genres: None,
        collection: None,
    }
}

#[test]
fn create_then_list_round_trip() {
    let mut store = Store::new();
    let created = store.create_item(full_request(), 100).unwrap();
    let listed = store.list_items();
    assert_eq!(listed.len(), 1);
    let item = &listed[0];
    assert_eq!(item.id, created.id);
    assert_eq!(item.title, "Dune");
    assert_eq!(item.description.as_deref(), Some("A desert planet"));
    assert_eq!(item.picture_url.as_deref(), Some("http://localhost/dune.png"));
    assert_eq!(item.author.as_deref(), Some("Frank Herbert"));
    assert_eq!(item.collection, "Favourites");
    assert!(!item.completed);
    assert_eq!(item.updated_at, 100);
    let genres: Vec<String> = serde_json::from_str(item.genres.as_deref().unwrap()).unwrap();
    assert_eq!(genres, vec!["sci-fi".to_string(), "classic".to_string()]);
}

#[test]
fn created_id_is_a_hyphenated_uuid() {
    let mut store = Store::new();
    let created = store.create_item(full_request(), 1).unwrap();
    assert_eq!(created.id.chars().count(), 36);
    assert_eq!(created.id.matches('-').count(), 4);
}

#[test]
fn create_without_collection_uses_default() {
    let mut store = Store::new();
    let mut req = full_request();
    req.collection = None;
    let created = store.create_item(req, 5).unwrap();
    assert_eq!(created.collection, "Default");
}

#[test]
fn create_without_genres_stores_none() {
    let mut store = Store::new();
    let mut req = full_request();
    req.genres = None;
    let created = store.create_item(req, 5).unwrap();
    assert!(created.genres.is_none());
}

#[test]
fn duplicate_id_is_rejected() {
    let mut store = Store::new();
    store
        .create_item_with_id(full_request(), "fixed-id".to_string(), 1)
        .unwrap();
    let second = store.create_item_with_id(full_request(), "fixed-id".to_string(), 2);
    match second {
        Err(e) => assert_eq!(e, StoreError::DuplicateId),
        Ok(_) => panic!("duplicate id accepted"),
    }
    assert_eq!(store.list_items().len(), 1);
}

#[test]
fn update_completed_preserves_other_fields() {
    let mut store = Store::new();
    let created = store.create_item(full_request(), 100).unwrap();
    let mut upd = empty_update();
    upd.completed = Some(true);
    let updated = store.update_item(&created.id, upd, 250).unwrap();
    assert!(updated.completed);
    assert_eq!(updated.title, created.title);
    assert_eq!(updated.description, created.description);
    assert_eq!(updated.picture_url, created.picture_url);
    assert_eq!(updated.author, created.author);
    assert_eq!(updated.genres, created.genres);
    assert_eq!(updated.collection, created.collection);
    assert!(updated.updated_at >= created.updated_at);
    assert_eq!(updated.updated_at, 250);
}

#[test]
fn update_refreshes_timestamp_even_without_fields() {
    let mut store = Store::new();
    let created = store.create_item(full_request(), 100).unwrap();
    let updated = store.update_item(&created.id, empty_update(), 300).unwrap();
    assert_eq!(updated.updated_at, 300);
    assert_eq!(updated.title, created.title);
}

#[test]
fn update_missing_id_returns_none() {
    let mut store = Store::new();
    store.create_item(full_request(), 1).unwrap();
    let r = store.update_item(&"absent".to_string(), empty_update(), 2);
    assert!(r.is_none());
    assert_eq!(store.list_items()[0].updated_at, 1);
}

#[test]
fn update_genres_stores_new_json() {
    let mut store = Store::new();
    let created = store.create_item(full_request(), 1).unwrap();
    let mut upd = empty_update();
    upd.genres = Some(vec!["horror".to_string()]);
    let updated = store.update_item(&created.id, upd, 2).unwrap();
    let genres: Vec<String> = serde_json::from_str(updated.genres.as_deref().unwrap()).unwrap();
    assert_eq!(genres, vec!["horror".to_string()]);
}

#[test]
fn delete_item_removes_only_that_item() {
    let mut store = Store::new();
    let a = store.create_item(full_request(), 1).unwrap();
    let b = store.create_item(full_request(), 2).unwrap();
    store.delete_item(&a.id);
    let listed = store.list_items();
    assert_eq!(listed.len(), 1);
    assert_eq!(listed[0].id, b.id);
}

#[test]
fn delete_missing_item_is_a_no_op() {
    let mut store = Store::new();
    store.create_item(full_request(), 1).unwrap();
    store.delete_item(&"absent".to_string());
    assert_eq!(store.list_items().len(), 1);
}

#[test]
fn wishlist_matches_exactly_the_wishlist_collection() {
    let mut store = Store::new();
    let mut in_wishlist = full_request();
    in_wishlist.collection = Some("Wishlist".to_string());
    let wanted = store.create_item(in_wishlist, 1).unwrap();
    let mut lowercase = full_request();
    lowercase.collection = Some("wishlist".to_string());
    store.create_item(lowercase, 2).unwrap();
    store.create_item(full_request(), 3).unwrap();
    let wishlist = store.wishlist();
    assert_eq!(wishlist.len(), 1);
    assert_eq!(wishlist[0].id, wanted.id);
    assert_eq!(wishlist[0].collection, "Wishlist");
}

#[test]
fn collections_are_listed_sorted_and_deduplicated() {
    let mut store = Store::new();
    store.create_collection("Novels".to_string(), 1);
    store.create_collection("Art".to_string(), 2);
    store.create_collection("Zines".to_string(), 3);
    store.create_collection("Novels".to_string(), 4);
    let listed = store.list_collections();
    let names: Vec<&str> = listed.iter().map(|c| c.name.as_str()).collect();
    assert_eq!(names, vec!["Art", "Novels", "Zines"]);
}

#[test]
fn create_collection_twice_keeps_first_timestamp() {
    let mut store = Store::new();
    store.create_collection("Shelf".to_string(), 10);
    store.create_collection("Shelf".to_string(), 20);
    let listed = store.list_collections();
    assert_eq!(listed.len(), 1);
    assert_eq!(listed[0].created_at, 10);
}

#[test]
fn delete_collection_reassigns_items_then_removes_it() {
    let mut store = Store::new();
    store.create_collection("X".to_string(), 1);
    store.create_collection("Keep".to_string(), 2);
    let mut first_in_x = full_request();
    first_in_x.collection = Some("X".to_string());
    let a = store.create_item(first_in_x, 3).unwrap();
    let mut second_in_x = full_request();
    second_in_x.collection = Some("X".to_string());
    let b = store.create_item(second_in_x, 4).unwrap();
    let mut elsewhere = full_request();
    elsewhere.collection = Some("Keep".to_string());
    let c = store.create_item(elsewhere, 5).unwrap();

    store.delete_collection(&"X".to_string());

    let names: Vec<String> = store.list_collections().iter().map(|x| x.name.clone()).collect();
    assert_eq!(names, vec!["Keep".to_string()]);
    for item in store.list_items() {
        if item.id == a.id || item.id == b.id {
            assert_eq!(item.collection, "Default");
        } else {
            assert_eq!(item.id, c.id);
            assert_eq!(item.collection, "Keep");
        }
    }
    assert_eq!(store.list_items().len(), 3);
}

#[test]
fn empty_store_lists_nothing() {
    let store = Store::new();
    assert!(store.list_items().is_empty());
    assert!(store.wishlist().is_empty());
    assert!(store.list_collections().is_empty());
}
