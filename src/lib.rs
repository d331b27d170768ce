//! Folder listing engine: path splitting, per-entry annotation, a multi-criterion
//! stable sort, the two-level listing cache policy, pagination, and the text
//! content reader. Filesystem access and the caches themselves belong to the
//! caller; this crate decides what to do and computes every result.

pub mod models;
pub mod text;
pub mod sort;
pub mod annotate;
pub mod resolve;
pub mod listing;
pub mod reader;
pub mod state;
