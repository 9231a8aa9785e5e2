//! Which requests of an agent need which capability.

use crate::apc::error::{Capability, PermissionError};
use crate::apc::handler::Handler;
use vstd::prelude::*;

verus! {

/// What an agent can ask of the client.
#[derive(PartialEq, Eq, Clone, Copy, Debug, Structural)]
pub enum ClientRequest {
    RequestPermission,
    SessionNotification,
    WriteTextFile,
    ReadTextFile,
    CreateTerminal,
    TerminalOutput,
    WaitForTerminalExit,
    ReleaseTerminal,
}

impl ClientRequest {
    /// The capability that serving the request needs, if it needs one.
    pub open spec fn needs(self) -> Option<Capability> {
        match self {
            ClientRequest::RequestPermission => None,
            ClientRequest::SessionNotification => None,
            ClientRequest::WriteTextFile => Some(Capability::FileWrite),
            ClientRequest::ReadTextFile => Some(Capability::FileRead),
            ClientRequest::CreateTerminal => Some(Capability::Terminal),
            ClientRequest::TerminalOutput => Some(Capability::Terminal),
            ClientRequest::WaitForTerminalExit => Some(Capability::Terminal),
            ClientRequest::ReleaseTerminal => Some(Capability::Terminal),
        }
    }

    pub fn capability(&self) -> (capability: Option<Capability>)
        ensures
            capability == self.needs(),
    {
        match self {
            ClientRequest::RequestPermission => None,
            ClientRequest::SessionNotification => None,
            ClientRequest::WriteTextFile => Some(Capability::FileWrite),
            ClientRequest::ReadTextFile => Some(Capability::FileRead),
            ClientRequest::CreateTerminal => Some(Capability::Terminal),
            ClientRequest::TerminalOutput => Some(Capability::Terminal),
            ClientRequest::WaitForTerminalExit => Some(Capability::Terminal),
            ClientRequest::ReleaseTerminal => Some(Capability::Terminal),
        }
    }
}

impl<H> Handler<H> {
    /// What the guard decides on a request: it is refused exactly when it
    /// needs a capability that the configuration does not grant.
    pub open spec fn decision(self, request: ClientRequest) -> Result<(), PermissionError> {
        match request.needs() {
            Some(capability) => if self.configuration().grants(capability) {
                Ok(())
            } else {
                Err(PermissionError { capability })
            },
            None => Ok(()),
        }
    }

    /// Decides whether a request may be handed to the handler. A refusal
    /// names the capability that is switched off; the handler is not
    /// consulted for it.
    pub fn authorize(&self, request: ClientRequest) -> (result: Result<(), PermissionError>)
        ensures
            result == self.decision(request),
    {
        match request.capability() {
            Some(capability) => {
                if self.config().allows(capability) {
                    Ok(())
                } else {
                    Err(PermissionError { capability })
                }
            },
            None => Ok(()),
        }
    }
}

} // verus!
