//! Verified core of a local list-management service: the item/collection
//! data model, the CRUD transitions over it, the dynamic update-statement
//! builder, the additive schema migration plan, and the per-route response
//! decisions (status codes and cross-origin headers).
//!
//! The HTTP transport and the embedded database live outside this crate;
//! they hand plain values in and take plain values back.

pub mod api;
pub mod codec;
pub mod laws;
pub mod migrate;
pub mod model;
pub mod order;
pub mod sql;
pub mod store;

pub use api::Route;
pub use model::{Collection, CreateItem, Item, UpdateItem};
pub use store::Store;
