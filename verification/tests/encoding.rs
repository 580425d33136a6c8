use list_service::codec::parse_genres;
use list_service::laws::genres_round_trip;
use list_service::model::{CreateItem, UpdateItem};
use list_service::sql::{update_statement, SqlValue};
use list_service::store::Store;

#[test]
fn genres_encoding_round_trips() {
    let genres = vec!["sci-fi".to_string(), "space \"opera\"".to_string(), "".to_string()];
    let back = genres_round_trip(&genres).unwrap();
    assert_eq!(back, genres);
}

#[test]
fn stored_genres_text_is_the_json_encoding() {
    let mut store = Store::new();
    let req = CreateItem {
        title: "t".to_string(),
        description: None,
        picture_url: None,
        author: None,
        genres: Some(vec!["a".to_string(), "b".to_string()]),
        collection: None,
    };
    let created = store.create_item(req, 1).unwrap();
    assert_eq!(created.genres.as_deref(), Some("[\"a\",\"b\"]"));
    assert_eq!(
        created.genres.as_deref().unwrap(),
        serde_json::to_string(&vec!["a", "b"]).unwrap()
    );
}

#[test]
fn parse_genres_recovers_the_stored_list() {
    let parsed = parse_genres("[\"a\",\"b\"]").unwrap();
    assert_eq!(parsed, vec!["a".to_string(), "b".to_string()]);
}

#[test]
fn parse_genres_rejects_other_text() {
    assert!(parse_genres("not json").is_none());
    assert!(parse_genres("{\"a\":1}").is_none());
}

#[test]
fn update_statement_with_every_field() {
    let upd = UpdateItem {
        completed: Some(true),
        description: Some("d".to_string()),
        picture_url: Some("p".to_string()),
        author: Some("a".to_string()),
        genres: Some(vec!["g".to_string()]),
        collection: Some("c".to_string()),
    };
    let (sql, binds) = update_statement(upd, &"id-1".to_string(), 42);
    assert_eq!(
        sql,
        "UPDATE items SET updated_at = ?, completed = ?, description = ?, picture_url = ?, \
         author = ?, genres = ?, collection = ? WHERE id = ?"
    );
    assert_eq!(binds.len(), 8);
    assert!(matches!(&binds[0], SqlValue::Int(42)));
    assert!(matches!(&binds[1], SqlValue::Int(1)));
    assert!(matches!(&binds[2], SqlValue::Text(t) if t == "d"));
    assert!(matches!(&binds[3], SqlValue::Text(t) if t == "p"));
    assert!(matches!(&binds[4], SqlValue::Text(t) if t == "a"));
    assert!(matches!(&binds[5], SqlValue::Text(t) if t == "[\"g\"]"));
    assert!(matches!(&binds[6], SqlValue::Text(t) if t == "c"));
    assert!(matches!(&binds[7], SqlValue::Text(t) if t == "id-1"));
}

#[test]
fn update_statement_with_no_fields() {
    let upd = UpdateItem {
        completed: None,
        description: None,
        picture_url: None,
        author: None,
        genres: None,
        collection: None,
    };
    let (sql, binds) = update_statement(upd, &"id-2".to_string(), 7);
    assert_eq!(sql, "UPDATE items SET updated_at = ? WHERE id = ?");
    assert_eq!(binds.len(), 2);
    assert!(matches!(&binds[0], SqlValue::Int(7)));
    assert!(matches!(&binds[1], SqlValue::Text(t) if t == "id-2"));
}

#[test]
fn update_statement_with_some_fields() {
    let upd = UpdateItem {
        completed: Some(false),
        description: None,
        picture_url: None,
        author: None,
        genres: None,
        collection: Some("Wishlist".to_string()),
    };
    let (sql, binds) = update_statement(upd, &"id-3".to_string(), 9);
    assert_eq!(
        sql,
        "UPDATE items SET updated_at = ?, completed = ?, collection = ? WHERE id = ?"
    );
    assert_eq!(binds.len(), 4);
    assert!(matches!(&binds[1], SqlValue::Int(0)));
    assert!(matches!(&binds[2], SqlValue::Text(t) if t == "Wishlist"));
    let placeholders = sql.matches('?').count();
    assert_eq!(placeholders, binds.len());
}
