//! Per-route response decisions: which HTTP methods each route advertises,
//! the cross-origin headers every response carries, and the status codes
//! the handlers answer with.

use vstd::prelude::*;

verus! {

/// The five routes the service serves.
#[derive(Clone, Copy, PartialEq, Eq, Structural)]
pub enum Route {
    Items,
    Wishlist,
    Collections,
    CollectionByName,
    ItemById,
}

/// The method list a route's preflight response advertises.
pub open spec fn spec_allowed_methods(route: Route) -> Seq<char> {
    match route {
        Route::Items => "GET,POST,OPTIONS"@,
        Route::Wishlist => "GET,OPTIONS"@,
        Route::Collections => "GET,POST,DELETE,OPTIONS"@,
        Route::CollectionByName => "GET,POST,DELETE,OPTIONS"@,
        Route::ItemById => "PUT,DELETE,OPTIONS"@,
    }
}

/// The exact `Access-Control-Allow-Methods` value for a route.
pub fn allowed_methods(route: Route) -> (r: &'static str)
    ensures
        r@ == spec_allowed_methods(route),
{
    match route {
        Route::Items => "GET,POST,OPTIONS",
        Route::Wishlist => "GET,OPTIONS",
        Route::Collections => "GET,POST,DELETE,OPTIONS",
        Route::CollectionByName => "GET,POST,DELETE,OPTIONS",
        Route::ItemById => "PUT,DELETE,OPTIONS",
    }
}

/// Every response carries `Access-Control-Allow-Origin: *`.
pub fn allow_origin() -> (r: &'static str)
    ensures
        r@ == "*"@,
{
    "*"
}

/// Preflight responses allow the `Content-Type` request header.
pub fn allowed_headers() -> (r: &'static str)
    ensures
        r@ == "Content-Type"@,
{
    "Content-Type"
}

/// A list read answers 200 in every case: the fetched rows when the query
/// succeeded, an empty list when it failed. A caller cannot tell a failed
/// read from an empty table.
pub fn read_response<T>(fetch: Option<Vec<T>>) -> (r: (u16, Vec<T>))
    ensures
        r.0 == 200,
        fetch matches Some(rows) ==> r.1 == rows,
        fetch is None ==> r.1@.len() == 0,
{
    match fetch {
        Some(rows) => (200, rows),
        None => (200, Vec::new()),
    }
}

/// A create answers 201 exactly when the write went through, 500 otherwise.
pub fn create_status(ok: bool) -> (r: u16)
    ensures
        r == 201 <==> ok,
        r == if ok { 201int } else { 500int },
{
    if ok {
        201
    } else {
        500
    }
}

/// A delete answers 204 exactly when the write went through, 500 otherwise.
pub fn delete_status(ok: bool) -> (r: u16)
    ensures
        r == 204 <==> ok,
        r == if ok { 204int } else { 500int },
{
    if ok {
        204
    } else {
        500
    }
}

/// An update answers 200 only when the statement went through and the
/// updated row could be read back; everything else is a server error, a
/// vanished row included.
pub fn update_status(updated: bool, fetched_back: bool) -> (r: u16)
    ensures
        r == 200 <==> updated && fetched_back,
        r == if updated && fetched_back { 200int } else { 500int },
{
    if updated && fetched_back {
        200
    } else {
        500
    }
}

/// Deleting a collection answers 204 only when both steps went through:
/// reassigning its items first, then removing the row. A failed first step
/// means the second was never attempted.
pub fn collection_delete_status(reassigned: bool, removed: bool) -> (r: u16)
    ensures
        r == 204 <==> reassigned && removed,
        r == if reassigned && removed { 204int } else { 500int },
{
    if reassigned && removed {
        204
    } else {
        500
    }
}

} // verus!
