//! The entry points that the editor's scripts call.

pub mod connect;
