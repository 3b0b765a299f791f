//! A single-peer handshake client core: identity parsing, error taxonomy and the
//! session state machine that orders connect, key agreement, greeting and teardown.

pub mod cli;
pub mod config;
pub mod errors;
pub mod network;
pub mod node;
pub mod session_laws;
pub mod text;
