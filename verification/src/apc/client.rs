//! The client's own configuration, and a client that accepts notifications
//! without showing them.

use crate::apc::error::{Capability, Error, ProtocolError, ProtocolFailure};
use crate::apc::protocol::content::ContentBlock;
use crate::apc::protocol::session::{SessionNotification, SessionUpdate};
use vstd::prelude::*;

verus! {

/// How the client names itself, and what it lets an agent do.
#[derive(Debug, Clone)]
pub struct ClientConfig {
    pub name: String,
    pub version: String,
    pub fs_write_access: bool,
    pub fs_read_access: bool,
    pub terminal_access: bool,
}

impl ClientConfig {
    /// Whether the configuration grants a capability.
    pub open spec fn grants(self, capability: Capability) -> bool {
        match capability {
            Capability::FileRead => self.fs_read_access,
            Capability::FileWrite => self.fs_write_access,
            Capability::Terminal => self.terminal_access,
        }
    }

    pub fn allows(&self, capability: Capability) -> (granted: bool)
        ensures
            granted == self.grants(capability),
    {
        match capability {
            Capability::FileRead => self.fs_read_access,
            Capability::FileWrite => self.fs_write_access,
            Capability::Terminal => self.terminal_access,
        }
    }
}

impl Default for ClientConfig {
    /// The client `hermes` in this version, with every capability granted.
    fn default() -> (config: ClientConfig)
        ensures
            config.name@ == "hermes"@,
            config.version@ == "0.1.0"@,
            config.fs_write_access,
            config.fs_read_access,
            config.terminal_access,
    {
        ClientConfig {
            name: "hermes".to_owned(),
            version: "0.1.0".to_owned(),
            fs_write_access: true,
            fs_read_access: true,
            terminal_access: true,
        }
    }
}

/// A client of the agent protocol that holds its configuration.
#[derive(Clone)]
pub struct ApcClient {
    config: ClientConfig,
}

/// What the client reports to its owner.
pub enum ApcEvent {
    Error(Error),
}

/// Whether a content block can be shown: every kind but audio.
pub open spec fn content_supported(content: ContentBlock) -> bool {
    !(content is Audio)
}

/// Whether an update is of a kind that the client handles, with content that
/// can be shown.
pub open spec fn update_supported(update: SessionUpdate) -> bool {
    match update {
        SessionUpdate::UserMessageChunk(chunk)
        | SessionUpdate::AgentMessageChunk(chunk)
        | SessionUpdate::AgentThoughtChunk(chunk) => content_supported(chunk.content),
        SessionUpdate::Other => false,
        _ => true,
    }
}

/// Accepts a content block of a message, or fails with `MethodNotFound` for
/// audio.
pub fn handle_content_chunk(content: ContentBlock) -> (result: Result<(), ProtocolError>)
    ensures
        result is Ok <==> content_supported(content),
        result is Err ==> result->Err_0@ == ProtocolFailure::MethodNotFound,
{
    match content {
        ContentBlock::Resource(_) => Ok(()),
        ContentBlock::ResourceLink(_) => Ok(()),
        ContentBlock::Audio(_) => Err(ProtocolError::MethodNotFound),
        ContentBlock::Image(_) => Ok(()),
        ContentBlock::Text(_) => Ok(()),
    }
}

impl ApcClient {
    /// The configuration that the client was made with.
    pub closed spec fn configuration(self) -> ClientConfig {
        self.config
    }

    pub fn new(config: ClientConfig) -> (client: ApcClient)
        ensures
            client.configuration() == config,
    {
        ApcClient { config }
    }

    pub fn config(&self) -> (config: &ClientConfig)
        ensures
            *config == self.configuration(),
    {
        &self.config
    }

    /// Accepts a session notification, or fails with `MethodNotFound` where
    /// its update is of a kind that the client does not handle or holds
    /// audio.
    pub fn session_notification(&self, args: SessionNotification) -> (result: Result<
        (),
        ProtocolError,
    >)
        ensures
            result is Ok <==> update_supported(args.update),
            result is Err ==> result->Err_0@ == ProtocolFailure::MethodNotFound,
    {
        match args.update {
            SessionUpdate::UserMessageChunk(chunk) => handle_content_chunk(chunk.content),
            SessionUpdate::AgentMessageChunk(chunk) => handle_content_chunk(chunk.content),
            SessionUpdate::AgentThoughtChunk(chunk) => handle_content_chunk(chunk.content),
            SessionUpdate::ToolCall(_) => Ok(()),
            SessionUpdate::ToolCallUpdate(_) => Ok(()),
            SessionUpdate::Plan(_) => Ok(()),
            SessionUpdate::AvailableCommandsUpdate(_) => Ok(()),
            SessionUpdate::CurrentModeUpdate(_) => Ok(()),
            SessionUpdate::ConfigOptionUpdate(_) => Ok(()),
            SessionUpdate::Other => Err(ProtocolError::MethodNotFound),
        }
    }
}

} // verus!
