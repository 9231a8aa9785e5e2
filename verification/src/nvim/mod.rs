//! Editor-facing side of the bridge.

pub mod api;
pub mod event;
pub mod producer;
pub mod state;
pub mod value;

pub use crate::apc::connection::ConnectionDetails;
pub use api::connect::ConnectionArgs;
pub use state::PluginState;

use vstd::prelude::*;
use vstd::string::StringExecFns;

verus! {

/// What can go wrong between the editor and the plugin.
#[derive(Debug, Clone)]
pub enum NvimError {
    /// The client could not be set up.
    InitializationError(String),
    /// No agent is connected.
    NotConnected,
    /// The editor passed a configuration that cannot be used.
    InvalidConfig(String),
}

impl NvimError {
    pub open spec fn text(self) -> Seq<char> {
        match self {
            NvimError::InitializationError(cause) => "Failed to initialize client: "@ + cause@,
            NvimError::NotConnected => "Client not connected"@,
            NvimError::InvalidConfig(cause) => "Invalid configuration: "@ + cause@,
        }
    }

    pub fn to_string(&self) -> (text: String)
        ensures
            text@ == self.text(),
    {
        match self {
            NvimError::InitializationError(cause) => "Failed to initialize client: ".to_owned()
                .concat(cause.as_str()),
            NvimError::NotConnected => "Client not connected".to_owned(),
            NvimError::InvalidConfig(cause) => "Invalid configuration: ".to_owned().concat(
                cause.as_str(),
            ),
        }
    }
}

} // verus!
