//! The core of a small HTTP service that creates, lists, updates and deletes
//! items held in one relational table.
//!
//! Everything here is plain computation: which handler a request reaches,
//! which statement a handler hands to the store, and which response follows
//! from what the store answered. Sockets, the store's client and the decoding
//! of request bodies live with the caller, who passes plain values in and
//! takes plain values back.
//!
//! A request goes through the crate in this order:
//!
//! 1. [`route`] finds the handler for its method and path.
//! 2. The handler ([`get_items`], [`create_item`], [`update_item`],
//!    [`delete_item`]) gives a [`Step`]: a [`Statement`] to run, or a
//!    [`Response`] that rejects the request before the store is reached.
//! 3. The caller sends the statement to the store and wraps the answer in a
//!    [`StoreReply`].
//! 4. [`respond`] turns statement and answer into the [`Response`].
//!
//! [`ItemTable`] is a table in memory that answers statements as the
//! repository expects of its store. The module [`laws`] states what follows
//! for every table and every request.

pub mod decimal;
pub mod handler;
pub mod item;
pub mod laws;
pub mod listing;
pub mod response;
pub mod route;
pub mod statement;
pub mod table;

pub use decimal::{parse_i32, render_i32};
pub use handler::{
    conclude, create_item, delete_item, get_items, respond, update_item, Step, StoreReply,
};
pub use item::{copy_items, Item, ItemData, UpdatedItemData};
pub use listing::{push_line, render_items};
pub use response::{
    MyError, Response, BAD_REQUEST, INTERNAL_SERVER_ERROR, METHOD_NOT_ALLOWED, NOT_FOUND, OK,
};
pub use route::{route, Method, Route};
pub use statement::{Param, Statement};
pub use table::ItemTable;
