//! The local message store: its record and error types, and the pure parts
//! of the SQLite + full-text index backend.
pub mod database;
pub mod sqlite_and_tantivy;

pub use database::{StoreError, StoredEmail};
