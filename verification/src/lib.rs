//! Full-text search over scraped documents.
//!
//! `doc` holds the validated values that make up a document, `searcher` the
//! index engine and the coordinator that owns it, `error` what can go wrong.

pub mod doc;
pub mod error;
pub mod searcher;
