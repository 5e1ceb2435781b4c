//! The request and state types of the HTTP interface.
pub mod handlers;
pub mod state;
