use vstd::prelude::*;

use crate::mail::AgentMessage;

verus! {

/// An email persisted in the local store, plus store-level metadata.
#[derive(Clone, Debug)]
pub struct StoredEmail {
    pub message: AgentMessage,
    pub is_read: bool,
    pub mailbox: Option<String>,
    /// Unix timestamp (seconds) when this email was first written to the store.
    pub stored_at: i64,
}

/// What went wrong in a storage backend.
#[derive(Debug)]
pub enum StoreError {
    Database(String),
    Search(String),
    Io(String),
    NotFound,
    NotSupported(&'static str),
}

/// The text a `StoreError` is shown as.
pub open spec fn store_error_text(e: StoreError) -> Seq<char> {
    match e {
        StoreError::Database(t) => "database error: "@ + t@,
        StoreError::Search(t) => "search index error: "@ + t@,
        StoreError::Io(t) => "io error: "@ + t@,
        StoreError::NotFound => "not found"@,
        StoreError::NotSupported(op) => "operation not supported by this store: "@ + op@,
    }
}

impl StoreError {
    /// The text this error is shown as.
    pub fn message(&self) -> (r: String)
        ensures
            r@ == store_error_text(*self),
    {
        match self {
            StoreError::Database(t) => {
                let mut out = crate::text::to_owned_string("database error: ");
                out.append(t.as_str());
                out
            },
            StoreError::Search(t) => {
                let mut out = crate::text::to_owned_string("search index error: ");
                out.append(t.as_str());
                out
            },
            StoreError::Io(t) => {
                let mut out = crate::text::to_owned_string("io error: ");
                out.append(t.as_str());
                out
            },
            StoreError::NotFound => crate::text::to_owned_string("not found"),
            StoreError::NotSupported(op) => {
                let mut out = crate::text::to_owned_string("operation not supported by this store: ");
                out.append(op);
                out
            },
        }
    }
}

} // verus!
