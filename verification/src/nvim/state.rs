//! What the plugin holds between calls.

use crate::apc::client::ClientConfig;
use crate::apc::connection::{Assistant, ConnectionHandle, ConnectionManager};
use crate::apc::handler::Handler;
use crate::nvim::producer::EventHandler;
use vstd::prelude::*;

verus! {

/// The group under which the plugin emits its events.
pub open spec fn group() -> Seq<char> {
    "hermes"@
}

/// The plugin's state: the guard in front of its event handler, and the
/// registry of its connections.
pub struct PluginState {
    pub client: Handler<EventHandler>,
    pub connection: ConnectionManager,
}

impl PluginState {
    /// The state of a plugin that was just loaded, with the default
    /// configuration.
    pub fn new() -> (state: PluginState)
        ensures
            state.connection@.wf(),
            state.connection@.handles == Map::<Assistant, ConnectionHandle>::empty(),
            state.connection@.launched == 0,
            state.client.inner().group_name() == group(),
            state.client.configuration().name@ == "hermes"@,
            state.client.configuration().version@ == "0.1.0"@,
            state.client.configuration().fs_read_access,
            state.client.configuration().fs_write_access,
            state.client.configuration().terminal_access,
    {
        PluginState::with_config(ClientConfig::default())
    }

    /// The state of a plugin that was just loaded: no connection, and events
    /// in the plugin's group.
    pub fn with_config(config: ClientConfig) -> (state: PluginState)
        ensures
            state.connection@.wf(),
            state.connection@.handles == Map::<Assistant, ConnectionHandle>::empty(),
            state.connection@.launched == 0,
            state.client.configuration() == config,
            state.client.inner().group_name() == group(),
    {
        PluginState {
            client: Handler::new(config, EventHandler::new("hermes".to_owned())),
            connection: ConnectionManager::new(),
        }
    }

    pub fn client(&self) -> (client: &Handler<EventHandler>)
        ensures
            *client == self.client,
    {
        &self.client
    }
}

impl Default for PluginState {
    fn default() -> (state: PluginState)
        ensures
            state.connection@.handles == Map::<Assistant, ConnectionHandle>::empty(),
            state.client.inner().group_name() == group(),
    {
        PluginState::new()
    }
}

} // verus!
