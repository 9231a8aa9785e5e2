//! The failures that the bridge reports.

use crate::apc::connection::{Assistant, Protocol};
use vstd::prelude::*;
use vstd::string::StringExecFns;

verus! {

/// A permission that the bridge grants to an agent or withholds from it.
#[derive(PartialEq, Eq, Clone, Copy, Debug, Structural)]
pub enum Capability {
    FileRead,
    FileWrite,
    Terminal,
}

impl Capability {
    pub open spec fn name(self) -> Seq<char> {
        match self {
            Capability::FileRead => "file read"@,
            Capability::FileWrite => "file write"@,
            Capability::Terminal => "terminal"@,
        }
    }

    pub fn to_string(&self) -> (name: String)
        ensures
            name@ == self.name(),
    {
        match self {
            Capability::FileRead => "file read".to_owned(),
            Capability::FileWrite => "file write".to_owned(),
            Capability::Terminal => "terminal".to_owned(),
        }
    }
}

/// Why a connection could not be made, used or ended.
#[derive(Debug, Clone)]
pub enum ConnectionError {
    /// The agent's program could not be started.
    Spawn(String),
    /// The agent's standard streams could not be captured.
    Pipe(String),
    /// The agent did not complete the opening exchange.
    Handshake(String),
    /// The connection no longer takes commands.
    Closed,
    /// No connection to this agent is registered.
    NotFound(Assistant),
    /// The transport is a reserved value without an implementation.
    NotImplemented(Protocol),
}

impl ConnectionError {
    pub open spec fn text(self) -> Seq<char> {
        match self {
            ConnectionError::Spawn(cause) => "Failed to spawn agent: "@ + cause@,
            ConnectionError::Pipe(cause) => "Failed to capture agent streams: "@ + cause@,
            ConnectionError::Handshake(cause) => "Failed to initialize agent: "@ + cause@,
            ConnectionError::Closed => "Connection closed"@,
            ConnectionError::NotFound(agent) => "No connection found for assistant "@
                + agent.name(),
            ConnectionError::NotImplemented(protocol) => "Protocol not implemented: "@
                + protocol.name(),
        }
    }

    pub fn to_string(&self) -> (text: String)
        ensures
            text@ == self.text(),
    {
        match self {
            ConnectionError::Spawn(cause) => "Failed to spawn agent: ".to_owned().concat(
                cause.as_str(),
            ),
            ConnectionError::Pipe(cause) => "Failed to capture agent streams: ".to_owned().concat(
                cause.as_str(),
            ),
            ConnectionError::Handshake(cause) => "Failed to initialize agent: ".to_owned().concat(
                cause.as_str(),
            ),
            ConnectionError::Closed => "Connection closed".to_owned(),
            ConnectionError::NotFound(agent) => {
                let name = agent.to_string();
                "No connection found for assistant ".to_owned().concat(name.as_str())
            },
            ConnectionError::NotImplemented(protocol) => {
                let name = protocol.to_string();
                "Protocol not implemented: ".to_owned().concat(name.as_str())
            },
        }
    }
}

/// Why a request of the protocol was not served.
#[derive(Debug, Clone)]
pub enum ProtocolError {
    /// The request or notification has no handler.
    MethodNotFound,
    /// Serving the request failed.
    Internal(String),
}

/// Mathematical model of a `ProtocolError`.
pub enum ProtocolFailure {
    MethodNotFound,
    Internal(Seq<char>),
}

impl View for ProtocolError {
    type V = ProtocolFailure;

    open spec fn view(&self) -> ProtocolFailure {
        match self {
            ProtocolError::MethodNotFound => ProtocolFailure::MethodNotFound,
            ProtocolError::Internal(message) => ProtocolFailure::Internal(message@),
        }
    }
}

impl ProtocolError {
    pub open spec fn text(self) -> Seq<char> {
        match self {
            ProtocolError::MethodNotFound => "Method not found"@,
            ProtocolError::Internal(message) => "Internal error: "@ + message@,
        }
    }

    pub fn to_string(&self) -> (text: String)
        ensures
            text@ == self.text(),
    {
        match self {
            ProtocolError::MethodNotFound => "Method not found".to_owned(),
            ProtocolError::Internal(message) => "Internal error: ".to_owned().concat(
                message.as_str(),
            ),
        }
    }
}

/// A request that needs a capability which the bridge has switched off.
#[derive(PartialEq, Eq, Clone, Copy, Debug, Structural)]
pub struct PermissionError {
    pub capability: Capability,
}

impl PermissionError {
    pub open spec fn text(self) -> Seq<char> {
        "Capability disabled: "@ + self.capability.name()
    }

    pub fn to_string(&self) -> (text: String)
        ensures
            text@ == self.text(),
    {
        let name = self.capability.to_string();
        "Capability disabled: ".to_owned().concat(name.as_str())
    }
}

/// Why a notification could not be turned into an event.
#[derive(Debug, Clone)]
pub enum TranslationError {
    /// A file that the notification refers to could not be read.
    Io { path: String, cause: String },
    /// The notification holds a variant without a rendering.
    UnsupportedVariant,
}

impl TranslationError {
    pub open spec fn text(self) -> Seq<char> {
        match self {
            TranslationError::Io { path, cause } => path@ + ": "@ + cause@,
            TranslationError::UnsupportedVariant => "Unsupported variant"@,
        }
    }

    pub fn to_string(&self) -> (text: String)
        ensures
            text@ == self.text(),
    {
        match self {
            TranslationError::Io { path, cause } => {
                let text = path.clone().concat(": ").concat(cause.as_str());
                assert(text@ == path@ + ": "@ + cause@);
                text
            },
            TranslationError::UnsupportedVariant => "Unsupported variant".to_owned(),
        }
    }

    /// The form in which the failure is reported to the agent: a variant
    /// without a rendering is a method that was not found, a failed read is an
    /// internal error that names the file and the cause.
    pub open spec fn protocol_form(self) -> ProtocolFailure {
        match self {
            TranslationError::Io { .. } => ProtocolFailure::Internal(self.text()),
            TranslationError::UnsupportedVariant => ProtocolFailure::MethodNotFound,
        }
    }

    /// Converts the failure into the form in which it is reported to the
    /// agent.
    pub fn into_protocol_error(self) -> (error: ProtocolError)
        ensures
            error@ == self.protocol_form(),
    {
        match self {
            TranslationError::Io { path, cause } => {
                let text = path.concat(": ").concat(cause.as_str());
                assert(text@ == path@ + ": "@ + cause@);
                ProtocolError::Internal(text)
            },
            TranslationError::UnsupportedVariant => ProtocolError::MethodNotFound,
        }
    }
}

/// The error that reaches the editor.
#[derive(Debug, Clone)]
pub enum Error {
    Internal(String),
    Connection(String),
    Permissions(String),
}

impl Error {
    pub open spec fn text(self) -> Seq<char> {
        match self {
            Error::Connection(message) => "Connection error: "@ + message@,
            Error::Permissions(message) => "Permissions error: "@ + message@,
            Error::Internal(message) => "Internal error: "@ + message@,
        }
    }

    pub fn to_string(&self) -> (text: String)
        ensures
            text@ == self.text(),
    {
        match self {
            Error::Connection(message) => "Connection error: ".to_owned().concat(
                message.as_str(),
            ),
            Error::Permissions(message) => "Permissions error: ".to_owned().concat(
                message.as_str(),
            ),
            Error::Internal(message) => "Internal error: ".to_owned().concat(message.as_str()),
        }
    }

    /// A connection failure, as the editor sees it.
    pub fn from_connection(error: &ConnectionError) -> (reported: Error)
        ensures
            reported is Connection,
            reported->Connection_0@ == error.text(),
    {
        Error::Connection(error.to_string())
    }

    /// A protocol failure, as the editor sees it.
    pub fn from_protocol(error: &ProtocolError) -> (reported: Error)
        ensures
            reported is Internal,
            reported->Internal_0@ == error.text(),
    {
        Error::Internal(error.to_string())
    }

    /// A refused capability, as the editor sees it.
    pub fn from_permission(error: &PermissionError) -> (reported: Error)
        ensures
            reported is Permissions,
            reported->Permissions_0@ == error.text(),
    {
        Error::Permissions(error.to_string())
    }
}

} // verus!
