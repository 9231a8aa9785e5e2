//! The notifications and commands of the agent protocol, as plain data.
//!
//! Identifiers and paths are held as strings. Free-form metadata and raw tool
//! input and output are held in their text form: the bridge passes them on
//! and never looks inside.

pub mod content;
pub mod plan;
pub mod session;
pub mod tool_call;
