//! The command line: its commands and the text each command prints.
pub mod handlers;

use vstd::prelude::*;

verus! {

/// A parsed command line.
pub struct Cli {
    pub command: Commands,
}

/// The commands of the command line.
pub enum Commands {
    /// Start the HTTP server.
    Serve,
    /// Start the JSON-RPC server on standard input and output.
    Mcp,
    /// Send an email.
    Send { to: String, subject: String, body: String, json: bool },
    /// Fetch all unread messages.
    Fetch { json: bool },
    /// Search messages by subject or sender.
    Search { query: String, json: bool },
    /// Fetch a single message by UID.
    Get { uid: u32, json: bool },
    /// Mark a message as read.
    Read { uid: u32 },
    /// List all mailboxes.
    Mailboxes { json: bool },
}

} // verus!
