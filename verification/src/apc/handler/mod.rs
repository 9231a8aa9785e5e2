//! The guard that stands between an agent's requests and the editor.

pub mod client;
pub mod response;

use crate::apc::client::ClientConfig;
use vstd::prelude::*;

verus! {

/// A handler of agent requests together with the configuration that says
/// which of them it may serve.
#[derive(Clone)]
pub struct Handler<H> {
    config: ClientConfig,
    handler: H,
}

impl<H> Handler<H> {
    /// The configuration that the guard was made with.
    pub closed spec fn configuration(self) -> ClientConfig {
        self.config
    }

    /// The handler that the guard protects.
    pub closed spec fn inner(self) -> H {
        self.handler
    }

    pub fn new(config: ClientConfig, handler: H) -> (guard: Handler<H>)
        ensures
            guard.configuration() == config,
            guard.inner() == handler,
    {
        Handler { config, handler }
    }

    pub fn config(&self) -> (config: &ClientConfig)
        ensures
            *config == self.configuration(),
    {
        &self.config
    }

    pub fn handler(&self) -> (handler: &H)
        ensures
            *handler == self.inner(),
    {
        &self.handler
    }
}

} // verus!
