pub mod error;
pub mod imap;
pub mod smtp;
pub mod types;

use std::sync::Arc;
use vstd::prelude::*;

pub use error::MailError;
pub use types::{AgentMessage, MailConfig};

verus! {

/// The mail client: the bridge settings and, optionally, a storage backend
/// that every fetched message is written through to.
///
/// `S` is the storage backend; it is usually a trait object.
pub struct PanoramaMail<S: ?Sized> {
    pub config: MailConfig,
    store: Option<Arc<S>>,
}

impl<S: ?Sized> PanoramaMail<S> {
    /// The bridge settings. (The private store field makes the type opaque
    /// to specifications outside this module, so verified callers read the
    /// settings through `config()`, whose contract ties them to this.)
    pub closed spec fn settings(&self) -> MailConfig {
        self.config
    }

    /// The attached storage backend, if any.
    pub closed spec fn attached_store(&self) -> Option<Arc<S>> {
        self.store
    }

    /// A client for `config` with no storage backend.
    pub fn new(config: MailConfig) -> (r: Self)
        ensures
            r.settings() == config,
            r.attached_store() is None,
    {
        PanoramaMail { config, store: None }
    }

    /// The same client with `store` attached for write-through caching; a
    /// backend attached before is replaced, so of two calls the second one's
    /// backend is the one kept. This holds for every backend type, trait
    /// objects included.
    pub fn with_store(self, store: Arc<S>) -> (r: Self)
        ensures
            r.settings() == self.settings(),
            r.attached_store() == Some(store),
    {
        let mut this = self;
        this.store = Some(store);
        this
    }

    /// The bridge settings.
    pub fn config(&self) -> (r: &MailConfig)
        ensures
            *r == self.settings(),
    {
        &self.config
    }

    /// The attached storage backend, if any.
    pub fn store(&self) -> (r: &Option<Arc<S>>)
        ensures
            *r == self.attached_store(),
    {
        &self.store
    }
}

/// A mail operation of the client, as far as write-through caching cares.
pub enum MailOperation {
    Send,
    FetchUnread,
    Search,
    GetByUid,
    MarkRead(u32),
    ListMailboxes,
}

/// What a successful mail operation writes through to the storage backend.
/// The backend's answer is never waited on for the result: a failed write
/// leaves the mail operation's result as it is.
pub enum StoreWrite {
    /// Nothing.
    Nothing,
    /// Every message the operation returned, in order.
    UpsertEach,
    /// The message the operation returned, if it found one.
    UpsertFound,
    /// The read flag of the message with this UID.
    MarkRead(u32),
}

impl<S: ?Sized> PanoramaMail<S> {
    /// What a successful `op` writes through to the attached backend: with
    /// no backend nothing; fetching unread messages and searching store every
    /// message returned; fetching by UID stores the message found; marking a
    /// message read marks it read in the store too; sending and listing
    /// mailboxes write nothing.
    pub fn store_write(&self, op: MailOperation) -> (r: StoreWrite)
        ensures
            self.attached_store() is None ==> r is Nothing,
            self.attached_store() is Some ==> match op {
                MailOperation::FetchUnread => r is UpsertEach,
                MailOperation::Search => r is UpsertEach,
                MailOperation::GetByUid => r is UpsertFound,
                MailOperation::MarkRead(uid) => r matches StoreWrite::MarkRead(u) && u == uid,
                MailOperation::Send => r is Nothing,
                MailOperation::ListMailboxes => r is Nothing,
            },
    {
        if self.store.is_none() {
            return StoreWrite::Nothing;
        }
        match op {
            MailOperation::FetchUnread => StoreWrite::UpsertEach,
            MailOperation::Search => StoreWrite::UpsertEach,
            MailOperation::GetByUid => StoreWrite::UpsertFound,
            MailOperation::MarkRead(uid) => StoreWrite::MarkRead(uid),
            MailOperation::Send => StoreWrite::Nothing,
            MailOperation::ListMailboxes => StoreWrite::Nothing,
        }
    }
}

} // verus!
