//! Verified core of an agent-facing mail interface for a local IMAP/SMTP bridge:
//! message extraction, command and query text, configuration, the storage row
//! mapping, the JSON-RPC tool surface and the log line format.
pub mod cli;
pub mod cloak;
pub mod config;
pub mod http;
pub mod logger;
pub mod mail;
pub mod mcp;
pub mod store;
pub mod text;
