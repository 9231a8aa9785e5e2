//! Agent identities, transports and the registry of live connections.
//!
//! The registry decides; it does not launch. `connect` says whether a
//! connection is there to be used again or has to be launched, the caller
//! launches it, and `finish_launch` takes the outcome: a launch that
//! succeeded is recorded, a launch that failed leaves nothing behind.

pub mod stdio;

use crate::apc::error::ConnectionError;
use vstd::prelude::*;

verus! {

/// `str::eq` holds exactly when the two strings have the same characters.
pub assume_specification[ <str as PartialEq>::eq ](a: &str, b: &str) -> (same: bool)
    ensures
        same == (a@ == b@),
;

/// The lower-case form of a string, as `str::to_lowercase` computes it.
pub uninterp spec fn lowercase(text: Seq<char>) -> Seq<char>;

/// `str::to_lowercase` returns the lower-case form of its argument. The form
/// depends on the characters alone.
#[verifier::external_body]
pub(crate) fn to_lowercase(text: &str) -> (lower: String)
    ensures
        lower@ == lowercase(text@),
{
    text.to_lowercase()
}

/// The way an agent process is reached. Only `Stdio` is functional.
#[derive(PartialEq, Eq, Clone, Copy, Hash, Debug, Structural)]
pub enum Protocol {
    Socket,
    Http,
    Stdio,
}

/// The transport that a lower-case name selects. Every name other than
/// `socket` and `http` selects the default, `Stdio`.
pub open spec fn protocol_named(name: Seq<char>) -> Protocol {
    if name == "socket"@ {
        Protocol::Socket
    } else if name == "http"@ {
        Protocol::Http
    } else {
        Protocol::Stdio
    }
}

impl Protocol {
    /// The name under which the bridge knows this transport.
    pub open spec fn name(self) -> Seq<char> {
        match self {
            Protocol::Socket => "socket"@,
            Protocol::Http => "http"@,
            Protocol::Stdio => "stdio"@,
        }
    }

    /// Selects a transport by a name that is already in lower case.
    pub fn from_lowercase(name: &str) -> (protocol: Protocol)
        ensures
            protocol == protocol_named(name@),
    {
        if name.eq("socket") {
            Protocol::Socket
        } else if name.eq("http") {
            Protocol::Http
        } else {
            Protocol::Stdio
        }
    }

    pub fn to_string(&self) -> (name: String)
        ensures
            name@ == self.name(),
    {
        match self {
            Protocol::Socket => "socket".to_owned(),
            Protocol::Http => "http".to_owned(),
            Protocol::Stdio => "stdio".to_owned(),
        }
    }
}

impl Default for Protocol {
    fn default() -> (protocol: Protocol)
        ensures
            protocol == Protocol::Stdio,
    {
        Protocol::Stdio
    }
}

impl From<&str> for Protocol {
    /// Selects a transport by name, ignoring case. An unrecognized name
    /// selects the default rather than failing.
    fn from(name: &str) -> (protocol: Protocol) {
        let lower = to_lowercase(name);
        Protocol::from_lowercase(lower.as_str())
    }
}

impl vstd::std_specs::convert::FromSpecImpl<&str> for Protocol {
    open spec fn obeys_from_spec() -> bool {
        true
    }

    open spec fn from_spec(name: &str) -> Protocol {
        protocol_named(lowercase(name@))
    }
}

impl From<String> for Protocol {
    fn from(name: String) -> (protocol: Protocol) {
        let lower = to_lowercase(name.as_str());
        Protocol::from_lowercase(lower.as_str())
    }
}

impl vstd::std_specs::convert::FromSpecImpl<String> for Protocol {
    open spec fn obeys_from_spec() -> bool {
        true
    }

    open spec fn from_spec(name: String) -> Protocol {
        protocol_named(lowercase(name@))
    }
}

/// The agents that the bridge can launch.
#[derive(PartialEq, Eq, Clone, Copy, Hash, Debug, Structural)]
pub enum Assistant {
    Copilot,
    Opencode,
}

/// The agent that a lower-case name selects. Every name other than `opencode`
/// selects the default, `Copilot`.
pub open spec fn assistant_named(name: Seq<char>) -> Assistant {
    if name == "opencode"@ {
        Assistant::Opencode
    } else {
        Assistant::Copilot
    }
}

impl Assistant {
    /// The name under which the bridge knows this agent.
    pub open spec fn name(self) -> Seq<char> {
        match self {
            Assistant::Copilot => "copilot"@,
            Assistant::Opencode => "opencode"@,
        }
    }

    /// Selects an agent by a name that is already in lower case.
    pub fn from_lowercase(name: &str) -> (agent: Assistant)
        ensures
            agent == assistant_named(name@),
    {
        if name.eq("opencode") {
            Assistant::Opencode
        } else {
            Assistant::Copilot
        }
    }

    pub fn to_string(&self) -> (name: String)
        ensures
            name@ == self.name(),
    {
        match self {
            Assistant::Copilot => "copilot".to_owned(),
            Assistant::Opencode => "opencode".to_owned(),
        }
    }
}

impl Default for Assistant {
    fn default() -> (agent: Assistant)
        ensures
            agent == Assistant::Copilot,
    {
        Assistant::Copilot
    }
}

impl From<&str> for Assistant {
    /// Selects an agent by name, ignoring case. An unrecognized name selects
    /// the default rather than failing.
    fn from(name: &str) -> (agent: Assistant) {
        let lower = to_lowercase(name);
        Assistant::from_lowercase(lower.as_str())
    }
}

impl vstd::std_specs::convert::FromSpecImpl<&str> for Assistant {
    open spec fn obeys_from_spec() -> bool {
        true
    }

    open spec fn from_spec(name: &str) -> Assistant {
        assistant_named(lowercase(name@))
    }
}

impl From<String> for Assistant {
    fn from(name: String) -> (agent: Assistant) {
        let lower = to_lowercase(name.as_str());
        Assistant::from_lowercase(lower.as_str())
    }
}

impl vstd::std_specs::convert::FromSpecImpl<String> for Assistant {
    open spec fn obeys_from_spec() -> bool {
        true
    }

    open spec fn from_spec(name: String) -> Assistant {
        assistant_named(lowercase(name@))
    }
}

/// What a caller asks of `connect`: which agent, over which transport.
#[derive(PartialEq, Eq, Clone, Copy, Debug, Structural)]
pub struct ConnectionDetails {
    pub agent: Assistant,
    pub protocol: Protocol,
}

impl Default for ConnectionDetails {
    fn default() -> (details: ConnectionDetails)
        ensures
            details.agent == Assistant::Copilot,
            details.protocol == Protocol::Stdio,
    {
        ConnectionDetails { agent: Assistant::Copilot, protocol: Protocol::Stdio }
    }
}

/// The endpoint of one live connection: the agent it leads to and the serial
/// number of the launch that made it.
#[derive(PartialEq, Eq, Clone, Copy, Debug, Structural)]
pub struct ConnectionHandle {
    pub agent: Assistant,
    pub serial: u64,
}

/// What a caller of `connect` has to do next.
#[derive(PartialEq, Eq, Clone, Copy, Debug, Structural)]
pub enum ConnectStep {
    /// The agent is connected: use this handle.
    Reuse(ConnectionHandle),
    /// The agent is not connected: launch it, then call `finish_launch`.
    Launch(Assistant),
}

/// Mathematical model of the registry: the handle of each connected agent,
/// and the number of launches recorded so far.
pub struct Registry {
    pub handles: Map<Assistant, ConnectionHandle>,
    pub launched: nat,
}

impl Registry {
    /// Each handle is filed under its own agent, and was made by a launch
    /// that is counted.
    pub open spec fn wf(self) -> bool {
        forall|agent: Assistant| #[trigger]
            self.handles.contains_key(agent) ==> self.handles[agent].agent == agent
                && self.handles[agent].serial < self.launched
    }

    /// What `connect` answers. For a connected agent the handle is returned
    /// whatever transport is asked for.
    pub open spec fn connect(self, details: ConnectionDetails) -> Result<
        ConnectStep,
        ConnectionError,
    > {
        if self.handles.contains_key(details.agent) {
            Ok(ConnectStep::Reuse(self.handles[details.agent]))
        } else if details.protocol == Protocol::Stdio {
            Ok(ConnectStep::Launch(details.agent))
        } else {
            Err(ConnectionError::NotImplemented(details.protocol))
        }
    }

    /// The registry after a launch of `agent` succeeded: a connected agent
    /// keeps its handle, another gets a handle with the next serial number.
    pub open spec fn register(self, agent: Assistant) -> Registry {
        if self.handles.contains_key(agent) {
            self
        } else {
            Registry {
                handles: self.handles.insert(
                    agent,
                    ConnectionHandle { agent, serial: self.launched as u64 },
                ),
                launched: self.launched + 1,
            }
        }
    }

    /// The registry after `agent` was disconnected.
    pub open spec fn disconnect(self, agent: Assistant) -> Registry {
        Registry { handles: self.handles.remove(agent), launched: self.launched }
    }
}

/// Connecting twice with the same arguments reaches one connection, made by
/// one launch. Whatever the registry holds before the first call: once that
/// call and the launch it may ask for are done, the agent has a handle; the
/// second call returns that handle and asks for no launch, so the registry
/// has counted at most one launch more than before; and a first call that
/// found the agent connected returned the same handle. The second call
/// returns it for any transport.
pub proof fn lemma_connect_twice_reaches_one_connection(
    registry: Registry,
    details: ConnectionDetails,
    other: Protocol,
)
    requires
        registry.wf(),
        registry.connect(details) is Ok,
    ensures
        ({
            let first = registry.connect(details)->Ok_0;
            let after = match first {
                ConnectStep::Launch(agent) => registry.register(agent),
                ConnectStep::Reuse(_) => registry,
            };
            let handle = after.handles[details.agent];
            &&& after.handles.contains_key(details.agent)
            &&& after.connect(details) == Ok::<ConnectStep, ConnectionError>(
                ConnectStep::Reuse(handle),
            )
            &&& after.connect(ConnectionDetails { agent: details.agent, protocol: other }) == Ok::<
                ConnectStep,
                ConnectionError,
            >(ConnectStep::Reuse(handle))
            &&& first is Reuse ==> first->Reuse_0 == handle
            &&& after.launched <= registry.launched + 1
            &&& first is Reuse ==> after.launched == registry.launched
        }),
{
}

/// After an agent was disconnected, the next `connect` for it asks for a new
/// launch, and the handle of that launch is not the handle that was removed.
pub proof fn lemma_connect_after_disconnect_launches_anew(registry: Registry, agent: Assistant)
    requires
        registry.wf(),
        registry.handles.contains_key(agent),
        registry.launched < u64::MAX,
    ensures
        ({
            let after = registry.disconnect(agent);
            &&& after.wf()
            &&& !after.handles.contains_key(agent)
            &&& after.connect(ConnectionDetails { agent, protocol: Protocol::Stdio }) == Ok::<
                ConnectStep,
                ConnectionError,
            >(ConnectStep::Launch(agent))
            &&& after.register(agent).handles[agent] != registry.handles[agent]
            &&& after.register(agent).launched == registry.launched + 1
        }),
{
}

/// The registry of live connections, at most one for each agent.
pub struct ConnectionManager {
    connection: Vec<ConnectionHandle>,
    launched: u64,
}

impl View for ConnectionManager {
    type V = Registry;

    closed spec fn view(&self) -> Registry {
        Registry {
            handles: Map::new(
                |agent: Assistant| self.position(agent) is Some,
                |agent: Assistant| self.connection@[self.position(agent).unwrap()],
            ),
            launched: self.launched as nat,
        }
    }
}

impl ConnectionManager {
    /// The place of an agent's handle in the list, if it has one.
    closed spec fn position(self, agent: Assistant) -> Option<int> {
        if exists|i: int| 0 <= i < self.connection@.len() && self.connection@[i].agent == agent {
            Some(
                choose|i: int| 0 <= i < self.connection@.len() && self.connection@[i].agent == agent,
            )
        } else {
            None
        }
    }

    /// No agent has two handles, and every handle was made by a launch that
    /// is counted.
    #[verifier::type_invariant]
    closed spec fn wf(self) -> bool {
        &&& forall|i: int, j: int|
            0 <= i < j < self.connection@.len() ==> self.connection@[i].agent
                != self.connection@[j].agent
        &&& forall|i: int|
            0 <= i < self.connection@.len() ==> (#[trigger] self.connection@[i]).serial
                < self.launched
    }

    /// A registry without connections.
    pub fn new() -> (manager: ConnectionManager)
        ensures
            manager@.wf(),
            manager@.handles == Map::<Assistant, ConnectionHandle>::empty(),
            manager@.launched == 0,
    {
        let manager = ConnectionManager { connection: Vec::new(), launched: 0 };
        assert(manager@.handles =~= Map::<Assistant, ConnectionHandle>::empty());
        manager
    }

    fn find(&self, agent: &Assistant) -> (index: Option<usize>)
        ensures
            self.wf(),
            self@.wf(),
            match index {
                Some(i) => i < self.connection@.len() && self.connection@[i as int].agent == *agent
                    && self.position(*agent) == Some(i as int),
                None => self.position(*agent) is None,
            },
    {
        proof {
            use_type_invariant(self);
        }
        let mut i: usize = 0;
        while i < self.connection.len()
            invariant
                self.wf(),
                i <= self.connection@.len(),
                forall|k: int| 0 <= k < i ==> self.connection@[k].agent != *agent,
            decreases self.connection.len() - i,
        {
            if self.connection[i].agent == *agent {
                proof {
                    let found = self.position(*agent).unwrap();
                    assert(self.connection@[i as int].agent == *agent);
                    assert(self.connection@[found].agent == *agent);
                    assert(found == i);
                }
                return Some(i);
            }
            i += 1;
        }
        None
    }

    /// The handle of a connected agent. Nothing is changed.
    pub fn get_connection(&self, agent: &Assistant) -> (handle: Option<ConnectionHandle>)
        ensures
            self@.wf(),
            handle == if self@.handles.contains_key(*agent) {
                Some(self@.handles[*agent])
            } else {
                None
            },
    {
        match self.find(agent) {
            Some(i) => Some(self.connection[i]),
            None => None,
        }
    }

    /// Decides how to connect. A connected agent's handle is returned as it
    /// is, and the transport that was asked for is not looked at. For another
    /// agent the caller is told to launch it, over `Stdio`; the other
    /// transports fail with `NotImplemented`.
    pub fn connect(&self, details: ConnectionDetails) -> (step: Result<
        ConnectStep,
        ConnectionError,
    >)
        ensures
            self@.wf(),
            step == self@.connect(details),
    {
        match self.find(&details.agent) {
            Some(i) => Ok(ConnectStep::Reuse(self.connection[i])),
            None => match details.protocol {
                Protocol::Stdio => Ok(ConnectStep::Launch(details.agent)),
                Protocol::Http => Err(ConnectionError::NotImplemented(Protocol::Http)),
                Protocol::Socket => Err(ConnectionError::NotImplemented(Protocol::Socket)),
            },
        }
    }

    /// Records that a launch of `agent` succeeded and returns the agent's
    /// handle. An agent that is connected keeps the handle it has. Fails with
    /// `Spawn`, and changes nothing, when the serial numbers are used up.
    pub fn add_connection(&mut self, agent: Assistant) -> (handle: Result<
        ConnectionHandle,
        ConnectionError,
    >)
        ensures
            old(self)@.wf(),
            final(self)@.wf(),
            old(self)@.handles.contains_key(agent) || old(self)@.launched < u64::MAX
                <==> handle is Ok,
            handle is Ok ==> final(self)@ == old(self)@.register(agent) && handle->Ok_0 == final(self)@.handles[agent],
            handle is Err ==> final(self)@ == old(self)@ && handle->Err_0 is Spawn,
    {
        match self.find(&agent) {
            Some(i) => Ok(self.connection[i]),
            None => {
                if self.launched == u64::MAX {
                    return Err(ConnectionError::Spawn("no serial number is left".to_owned()));
                }
                let handle = ConnectionHandle { agent, serial: self.launched };
                let ghost before = *self;
                let mut connection: Vec<ConnectionHandle> = Vec::new();
                std::mem::swap(&mut self.connection, &mut connection);
                connection.push(handle);
                self.launched = self.launched + 1;
                std::mem::swap(&mut self.connection, &mut connection);
                proof {
                    let last = before.connection@.len() as int;
                    assert(self.connection@[last].agent == agent);
                    assert forall|other: Assistant| other != agent implies self.position(other)
                        == before.position(other) || (self.position(other) is Some
                        && before.position(other) is Some && self.connection@[self.position(
                        other,
                    ).unwrap()] == before.connection@[before.position(other).unwrap()]) by {
                        if before.position(other) is Some {
                            let i = before.position(other).unwrap();
                            assert(self.connection@[i].agent == other);
                            let j = self.position(other).unwrap();
                            assert(j < last);
                            assert(before.connection@[j].agent == other);
                            assert(i == j);
                        } else {
                            if self.position(other) is Some {
                                let j = self.position(other).unwrap();
                                assert(j < last);
                                assert(before.connection@[j].agent == other);
                            }
                        }
                    }
                    assert(self.position(agent) is Some);
                    assert(self.position(agent).unwrap() == last);
                    assert(self@.handles =~= before@.register(agent).handles);
                }
                Ok(handle)
            },
        }
    }

    /// Ends a `connect` that asked for a launch, given how the launch went. A
    /// launch that succeeded is recorded as by `add_connection`. A launch that
    /// failed is not: its failure is returned, and the registry is as it was.
    pub fn finish_launch(&mut self, agent: Assistant, launch: Result<(), ConnectionError>) -> (handle:
        Result<ConnectionHandle, ConnectionError>)
        ensures
            old(self)@.wf(),
            final(self)@.wf(),
            launch is Err ==> handle is Err && handle->Err_0 == launch->Err_0 && final(self)@
                == old(self)@,
            launch is Ok ==> (old(self)@.handles.contains_key(agent) || old(self)@.launched
                < u64::MAX <==> handle is Ok),
            launch is Ok && handle is Ok ==> final(self)@ == old(self)@.register(agent)
                && handle->Ok_0 == final(self)@.handles[agent],
            launch is Ok && handle is Err ==> final(self)@ == old(self)@ && handle->Err_0 is Spawn,
    {
        match launch {
            Ok(()) => self.add_connection(agent),
            Err(failure) => {
                proof {
                    use_type_invariant(&*self);
                }
                Err(failure)
            },
        }
    }

    /// Takes note that the connection behind `handle` was lost: the agent is
    /// then no longer connected, and the next `connect` for it asks for a new
    /// launch. Nothing changes where the agent is not connected, or is
    /// connected by another launch. Returns whether the connection was
    /// removed.
    pub fn connection_lost(&mut self, handle: ConnectionHandle) -> (removed: bool)
        ensures
            old(self)@.wf(),
            final(self)@.wf(),
            removed == (old(self)@.handles.contains_key(handle.agent) && old(self)@.handles[handle.agent] == handle),
            final(self)@ == if removed {
                old(self)@.disconnect(handle.agent)
            } else {
                old(self)@
            },
    {
        match self.get_connection(&handle.agent) {
            Some(current) => {
                if current == handle {
                    match self.disconnect(&handle.agent) {
                        Ok(_) => true,
                        Err(_) => false,
                    }
                } else {
                    false
                }
            },
            None => false,
        }
    }

    /// Removes the connection of `assistant` and returns its handle. Fails
    /// with `NotFound`, and changes nothing, where the agent is not connected.
    pub fn disconnect(&mut self, assistant: &Assistant) -> (result: Result<
        ConnectionHandle,
        ConnectionError,
    >)
        ensures
            old(self)@.wf(),
            final(self)@.wf(),
            match result {
                Ok(handle) => old(self)@.handles.contains_key(*assistant) && handle == old(self)@.handles[*assistant] && final(self)@ == old(self)@.disconnect(*assistant),
                Err(error) => !old(self)@.handles.contains_key(*assistant) && error
                    == ConnectionError::NotFound(*assistant) && final(self)@ == old(self)@,
            },
    {
        match self.find(assistant) {
            Some(i) => {
                let ghost before = *self;
                let mut connection: Vec<ConnectionHandle> = Vec::new();
                std::mem::swap(&mut self.connection, &mut connection);
                let handle = connection.remove(i);
                proof {
                    assert forall|a: int, b: int|
                        0 <= a < b < connection@.len() implies connection@[a].agent
                        != connection@[b].agent by {
                        let a0 = if a < i {
                            a
                        } else {
                            a + 1
                        };
                        let b0 = if b < i {
                            b
                        } else {
                            b + 1
                        };
                        assert(connection@[a] == before.connection@[a0]);
                        assert(connection@[b] == before.connection@[b0]);
                    }
                    assert forall|k: int| 0 <= k < connection@.len() implies (
                    #[trigger] connection@[k]).serial < self.launched by {
                        let k0 = if k < i {
                            k
                        } else {
                            k + 1
                        };
                        assert(connection@[k] == before.connection@[k0]);
                    }
                }
                std::mem::swap(&mut self.connection, &mut connection);
                proof {
                    let agent = *assistant;
                    assert forall|k: int| 0 <= k < self.connection@.len() implies (
                    #[trigger] self.connection@[k]).agent != agent by {
                        if k < i {
                            assert(self.connection@[k] == before.connection@[k]);
                        } else {
                            assert(self.connection@[k] == before.connection@[k + 1]);
                        }
                    }
                    assert(self.position(agent) is None);
                    assert forall|other: Assistant| other != agent implies (self.position(other)
                        is Some <==> before.position(other) is Some) && (self.position(other)
                        is Some ==> self.connection@[self.position(other).unwrap()]
                        == before.connection@[before.position(other).unwrap()]) by {
                        if before.position(other) is Some {
                            let b = before.position(other).unwrap();
                            let moved = if b < i {
                                b
                            } else {
                                b - 1
                            };
                            assert(self.connection@[moved] == before.connection@[b]);
                            let s = self.position(other).unwrap();
                            let back = if s < i {
                                s
                            } else {
                                s + 1
                            };
                            assert(before.connection@[back] == self.connection@[s]);
                            assert(back == b);
                        } else {
                            if self.position(other) is Some {
                                let s = self.position(other).unwrap();
                                let back = if s < i {
                                    s
                                } else {
                                    s + 1
                                };
                                assert(before.connection@[back] == self.connection@[s]);
                            }
                        }
                    }
                    assert(self@.handles =~= before@.disconnect(agent).handles);
                }
                Ok(handle)
            },
            None => Err(ConnectionError::NotFound(*assistant)),
        }
    }
}

} // verus!
