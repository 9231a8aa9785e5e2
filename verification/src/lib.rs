//! Client-side bridge between an editor and external coding-agent processes.
//!
//! The bridge keeps one connection for each agent, sends the editor's
//! commands to an agent in the order of their submission, and turns what the
//! agent reports into events for the editor.

pub mod apc;
pub mod nvim;

pub use apc::client::{ApcClient, ClientConfig};
pub use apc::handler::Handler;
pub use nvim::PluginState;
