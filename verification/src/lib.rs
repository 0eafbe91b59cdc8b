//! An in-memory notification store: create, list, read, acknowledge and delete
//! short text notifications, each under a numeric ID, in insertion order.
//!
//! - [`notification`]: the notification and the body of a create request.
//! - [`model`]: the store as a sequence of notifications, what each operation
//!   makes of it, and the laws that hold of every store.
//! - [`store`]: the store itself, over an insertion-ordered map.
//! - [`index_map`]: what is taken on trust of that map.
//! - [`api`]: requests, responses, and the table between them.
//! - [`error`]: the kinds of failure.

pub mod api;
pub mod error;
pub mod index_map;
pub mod model;
pub mod notification;
pub mod store;
