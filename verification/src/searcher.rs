//! The index engine and its coordinator.
//!
//! `schema` fixes the fields of the index, `backend` is the boundary to the
//! indexing library, `engine` adds and finds documents, and `actor` answers
//! the messages that reach the engine's one owner.

pub mod actor;
pub mod backend;
pub mod engine;
pub mod schema;
