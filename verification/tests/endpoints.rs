use list_service::api::{
    allow_origin, allowed_headers, allowed_methods, collection_delete_status, create_status,
    delete_status, read_response, update_status, Route,
};
use list_service::migrate::{add_collection_sql, add_genres_sql, plan_migration};
use list_service::model::Collection;
use list_service::order::str_lt;

#[test]
fn every_route_advertises_its_methods() {
    assert_eq!(allowed_methods(Route::Items), "GET,POST,OPTIONS");
    assert_eq!(allowed_methods(Route::Wishlist), "GET,OPTIONS");
    assert_eq!(allowed_methods(Route::Collections), "GET,POST,DELETE,OPTIONS");
    assert_eq!(allowed_methods(Route::CollectionByName), "GET,POST,DELETE,OPTIONS");
    assert_eq!(allowed_methods(Route::ItemById), "PUT,DELETE,OPTIONS");
}

#[test]
fn cors_headers_are_permissive() {
    assert_eq!(allow_origin(), "*");
    assert_eq!(allowed_headers(), "Content-Type");
}

#[test]
fn failed_read_answers_empty_list_with_success() {
    let (status, rows) = read_response::<Collection>(None);
    assert_eq!(status, 200);
    assert!(rows.is_empty());
}

#[test]
fn successful_read_answers_the_rows() {
    let rows = vec![Collection { name: "A".to_string(), created_at: 1 }];
    let (status, out) = read_response(Some(rows));
    assert_eq!(status, 200);
    assert_eq!(out.len(), 1);
    assert_eq!(out[0].name, "A");
}

#[test]
fn write_statuses_follow_the_outcome() {
    assert_eq!(create_status(true), 201);
    assert_eq!(create_status(false), 500);
    assert_eq!(delete_status(true), 204);
    assert_eq!(delete_status(false), 500);
    assert_eq!(update_status(true, true), 200);
    assert_eq!(update_status(true, false), 500);
    assert_eq!(update_status(false, false), 500);
    assert_eq!(collection_delete_status(true, true), 204);
    assert_eq!(collection_delete_status(false, false), 500);
    assert_eq!(collection_delete_status(true, false), 500);
}

#[test]
fn migration_adds_only_missing_columns() {
    let bare = vec!["id".to_string(), "title".to_string()];
    let plan = plan_migration(&bare);
    assert!(plan.add_collection);
    assert!(plan.add_genres);

    let half = vec!["id".to_string(), "collection".to_string()];
    let plan = plan_migration(&half);
    assert!(!plan.add_collection);
    assert!(plan.add_genres);
}

#[test]
fn migration_is_idempotent() {
    let mut cols = vec!["id".to_string(), "title".to_string()];
    let first = plan_migration(&cols);
    if first.add_collection {
        cols.push("collection".to_string());
    }
    if first.add_genres {
        cols.push("genres".to_string());
    }
    let second = plan_migration(&cols);
    assert!(!second.add_collection);
    assert!(!second.add_genres);
}

#[test]
fn migration_statements_are_additive() {
    assert_eq!(
        add_collection_sql(),
        "ALTER TABLE items ADD COLUMN collection TEXT DEFAULT 'Default'"
    );
    assert_eq!(add_genres_sql(), "ALTER TABLE items ADD COLUMN genres TEXT");
}

#[test]
fn name_order_is_lexicographic() {
    assert!(str_lt("Art", "Novels"));
    assert!(!str_lt("Novels", "Art"));
    assert!(!str_lt("Art", "Art"));
    assert!(str_lt("Art", "Artisan"));
    assert!(str_lt("Wish", "wish"));
}
