//! The JSON-RPC tool server: its routing decisions and tool catalogue.
pub mod server;
pub mod tools;
