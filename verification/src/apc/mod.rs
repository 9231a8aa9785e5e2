//! Agent-facing side of the bridge.

pub mod client;
pub mod connection;
pub mod error;
pub mod handler;
pub mod protocol;
