//! Document ingestion and keyword search over per-request text indices.
//!
//! The library decodes submitted documents into per-item outcomes, builds a
//! fresh full-text index for each request, runs ranked keyword searches over a
//! named index, resolves the base URL of download links, and decides how the
//! archive of an index is written and served.

pub mod archive;
pub mod builder;
pub mod decoder;
pub mod document;
pub mod engine;
pub mod error;
pub mod search;
pub mod text;
pub mod url_prefix;
