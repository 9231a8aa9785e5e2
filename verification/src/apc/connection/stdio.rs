//! The connection to one agent over its standard streams: how the agent is
//! launched, and the order in which commands reach it.
//!
//! The dispatcher is the part of the command loop that decides. The loop
//! itself belongs to the caller: it hands each command to `submit`, takes the
//! command to issue from `next_call`, makes the protocol call, and reports how
//! the call ended to `complete`, which says where the reply goes.

use crate::apc::client::ClientConfig;
use crate::apc::connection::Assistant;
use crate::apc::error::{Capability, ConnectionError, Error, ProtocolError};
use crate::apc::handler::response::ResponseKind;
use crate::apc::protocol::content::ContentBlock;
use std::collections::VecDeque;
use vstd::prelude::*;

verus! {

/// The program that runs an agent, and its arguments.
pub struct LaunchCommand {
    pub program: String,
    pub args: Vec<String>,
}

/// The steps of a launch, each of which can fail.
#[derive(PartialEq, Eq, Clone, Copy, Debug, Structural)]
pub enum LaunchStage {
    /// Starting the agent's program.
    Spawn,
    /// Taking the agent's standard input.
    Stdin,
    /// Taking the agent's standard output.
    Stdout,
    /// The opening exchange with the agent.
    Handshake,
}

/// What this side says of itself in the opening exchange.
pub struct Handshake {
    pub client_name: String,
    pub client_version: String,
    pub protocol_version: u16,
    pub read_text_file: bool,
    pub write_text_file: bool,
    pub terminal: bool,
}

/// The opening exchange for a client with this configuration. The
/// identification and the protocol version are the same on every connection;
/// the three capabilities are announced as the configuration grants them.
pub fn handshake(config: &ClientConfig) -> (hello: Handshake)
    ensures
        hello.client_name@ == "neovim"@,
        hello.client_version@ == "11.0.6"@,
        hello.protocol_version == 1,
        hello.read_text_file == config.grants(Capability::FileRead),
        hello.write_text_file == config.grants(Capability::FileWrite),
        hello.terminal == config.grants(Capability::Terminal),
{
    Handshake {
        client_name: "neovim".to_owned(),
        client_version: "11.0.6".to_owned(),
        protocol_version: 1,
        read_text_file: config.allows(Capability::FileRead),
        write_text_file: config.allows(Capability::FileWrite),
        terminal: config.allows(Capability::Terminal),
    }
}

/// The command line of an agent.
pub fn connect(agent: Assistant) -> (command: LaunchCommand)
    ensures
        match agent {
            Assistant::Copilot => command.program@ == "node"@ && command.args@.len() == 2
                && command.args@[0]@ == "copilot-language-server"@ && command.args@[1]@
                == "--acp"@,
            Assistant::Opencode => command.program@ == "opencode"@ && command.args@.len() == 1
                && command.args@[0]@ == "acp"@,
        },
{
    match agent {
        Assistant::Copilot => {
            let mut args: Vec<String> = Vec::new();
            args.push("copilot-language-server".to_owned());
            args.push("--acp".to_owned());
            LaunchCommand { program: "node".to_owned(), args }
        },
        Assistant::Opencode => {
            let mut args: Vec<String> = Vec::new();
            args.push("acp".to_owned());
            LaunchCommand { program: "opencode".to_owned(), args }
        },
    }
}

/// The failure of `connect` for a launch that broke off at `stage`: `Spawn`
/// where the program did not start, `Pipe` where a stream could not be
/// taken, `Handshake` where the opening exchange failed.
pub fn launch_failure(stage: LaunchStage, cause: String) -> (error: ConnectionError)
    ensures
        match stage {
            LaunchStage::Spawn => error is Spawn && error->Spawn_0 == cause,
            LaunchStage::Stdin => error is Pipe && error->Pipe_0@ == "Failed to take stdin"@,
            LaunchStage::Stdout => error is Pipe && error->Pipe_0@ == "Failed to take stdout"@,
            LaunchStage::Handshake => error is Handshake && error->Handshake_0 == cause,
        },
{
    match stage {
        LaunchStage::Spawn => ConnectionError::Spawn(cause),
        LaunchStage::Stdin => ConnectionError::Pipe("Failed to take stdin".to_owned()),
        LaunchStage::Stdout => ConnectionError::Pipe("Failed to take stdout".to_owned()),
        LaunchStage::Handshake => ConnectionError::Handshake(cause),
    }
}

/// A command that the editor sends to an agent.
#[derive(Debug, Clone)]
pub enum UserRequest {
    CreateSession { workspace_root: String },
    Prompt { session_id: String, content: Vec<ContentBlock> },
    Cancel { session_id: String },
    Authenticate { method_id: String },
    SetConfigOption { session_id: String, option_id: String, value: String },
    SetMode { session_id: String, mode_id: String },
    LoadSession { session_id: String, workspace_root: String },
    ListSessions,
    ForkSession { session_id: String, workspace_root: String },
    ResumeSession { session_id: String, workspace_root: String },
    SetSessionModel { session_id: String, model_id: String },
    CustomCommand { name: String, payload: String },
    CustomNotification { name: String, payload: String },
}

/// The calls of the protocol that the dispatcher makes.
#[derive(PartialEq, Eq, Clone, Copy, Debug, Structural)]
pub enum ProtocolCall {
    NewSession,
    Prompt,
    Cancel,
    Authenticate,
    SetSessionConfigOption,
    SetSessionMode,
    LoadSession,
    ListSessions,
    ForkSession,
    ResumeSession,
    SetSessionModel,
    ExtMethod,
    ExtNotification,
}

impl ProtocolCall {
    /// Where the reply to the call goes. The two notifications, `Cancel` and
    /// `ExtNotification`, have no reply and go nowhere.
    pub open spec fn route(self) -> Option<ResponseKind> {
        match self {
            ProtocolCall::NewSession => Some(ResponseKind::SessionCreated),
            ProtocolCall::Prompt => Some(ResponseKind::Prompted),
            ProtocolCall::Cancel => None,
            ProtocolCall::Authenticate => Some(ResponseKind::Authenticated),
            ProtocolCall::SetSessionConfigOption => Some(ResponseKind::ConfigOptionSet),
            ProtocolCall::SetSessionMode => Some(ResponseKind::ModeSet),
            ProtocolCall::LoadSession => Some(ResponseKind::SessionLoaded),
            ProtocolCall::ListSessions => Some(ResponseKind::SessionsListed),
            ProtocolCall::ForkSession => Some(ResponseKind::SessionForked),
            ProtocolCall::ResumeSession => Some(ResponseKind::SessionResumed),
            ProtocolCall::SetSessionModel => Some(ResponseKind::SessionModelSet),
            ProtocolCall::ExtMethod => Some(ResponseKind::CustomCommandExecuted),
            ProtocolCall::ExtNotification => None,
        }
    }

    pub fn response(&self) -> (kind: Option<ResponseKind>)
        ensures
            kind == self.route(),
    {
        match self {
            ProtocolCall::NewSession => Some(ResponseKind::SessionCreated),
            ProtocolCall::Prompt => Some(ResponseKind::Prompted),
            ProtocolCall::Cancel => None,
            ProtocolCall::Authenticate => Some(ResponseKind::Authenticated),
            ProtocolCall::SetSessionConfigOption => Some(ResponseKind::ConfigOptionSet),
            ProtocolCall::SetSessionMode => Some(ResponseKind::ModeSet),
            ProtocolCall::LoadSession => Some(ResponseKind::SessionLoaded),
            ProtocolCall::ListSessions => Some(ResponseKind::SessionsListed),
            ProtocolCall::ForkSession => Some(ResponseKind::SessionForked),
            ProtocolCall::ResumeSession => Some(ResponseKind::SessionResumed),
            ProtocolCall::SetSessionModel => Some(ResponseKind::SessionModelSet),
            ProtocolCall::ExtMethod => Some(ResponseKind::CustomCommandExecuted),
            ProtocolCall::ExtNotification => None,
        }
    }
}

impl UserRequest {
    /// The one call of the protocol that the command maps to.
    pub open spec fn call(self) -> ProtocolCall {
        match self {
            UserRequest::CreateSession { .. } => ProtocolCall::NewSession,
            UserRequest::Prompt { .. } => ProtocolCall::Prompt,
            UserRequest::Cancel { .. } => ProtocolCall::Cancel,
            UserRequest::Authenticate { .. } => ProtocolCall::Authenticate,
            UserRequest::SetConfigOption { .. } => ProtocolCall::SetSessionConfigOption,
            UserRequest::SetMode { .. } => ProtocolCall::SetSessionMode,
            UserRequest::LoadSession { .. } => ProtocolCall::LoadSession,
            UserRequest::ListSessions => ProtocolCall::ListSessions,
            UserRequest::ForkSession { .. } => ProtocolCall::ForkSession,
            UserRequest::ResumeSession { .. } => ProtocolCall::ResumeSession,
            UserRequest::SetSessionModel { .. } => ProtocolCall::SetSessionModel,
            UserRequest::CustomCommand { .. } => ProtocolCall::ExtMethod,
            UserRequest::CustomNotification { .. } => ProtocolCall::ExtNotification,
        }
    }

    pub fn protocol_call(&self) -> (call: ProtocolCall)
        ensures
            call == self.call(),
    {
        match self {
            UserRequest::CreateSession { .. } => ProtocolCall::NewSession,
            UserRequest::Prompt { .. } => ProtocolCall::Prompt,
            UserRequest::Cancel { .. } => ProtocolCall::Cancel,
            UserRequest::Authenticate { .. } => ProtocolCall::Authenticate,
            UserRequest::SetConfigOption { .. } => ProtocolCall::SetSessionConfigOption,
            UserRequest::SetMode { .. } => ProtocolCall::SetSessionMode,
            UserRequest::LoadSession { .. } => ProtocolCall::LoadSession,
            UserRequest::ListSessions => ProtocolCall::ListSessions,
            UserRequest::ForkSession { .. } => ProtocolCall::ForkSession,
            UserRequest::ResumeSession { .. } => ProtocolCall::ResumeSession,
            UserRequest::SetSessionModel { .. } => ProtocolCall::SetSessionModel,
            UserRequest::CustomCommand { .. } => ProtocolCall::ExtMethod,
            UserRequest::CustomNotification { .. } => ProtocolCall::ExtNotification,
        }
    }
}

/// A custom notification maps to a call without a reply, so nothing of it is
/// ever routed to the response sink.
pub proof fn lemma_custom_notification_is_not_routed(command: UserRequest)
    requires
        command is CustomNotification,
    ensures
        command.call() == ProtocolCall::ExtNotification,
        command.call().route() is None,
{
}

/// The calls that a list of commands maps to, in order.
pub open spec fn calls_of(commands: Seq<UserRequest>) -> Seq<ProtocolCall> {
    Seq::new(commands.len(), |i: int| commands[i].call())
}

/// How a protocol call ended.
#[derive(Debug, Clone)]
pub enum CallOutcome {
    /// The agent replied, or the notification was sent.
    Done,
    /// The agent replied with an error, or its reply could not be read.
    Failed(ProtocolError),
    /// The stream to the agent is closed.
    TransportClosed,
}

/// What the loop does after a call ended.
#[derive(Debug, Clone)]
pub enum Completion {
    /// Hand the reply to this entry point of the response sink.
    Deliver(ResponseKind),
    /// Nothing is routed: the call was a notification.
    Sent,
    /// Report the failure to the command's caller, and go on.
    Report(Error),
    /// The connection is lost: end the loop. The commands that were waiting
    /// fail with `Closed`.
    Terminate { abandoned: usize },
    /// No call was under way.
    Idle,
}

/// The order of commands on one connection.
pub struct Dispatcher {
    queue: VecDeque<UserRequest>,
    in_flight: Option<ProtocolCall>,
    open: bool,
    history: Ghost<Seq<UserRequest>>,
    abandoned: Ghost<Seq<UserRequest>>,
    delivered: Ghost<Seq<ResponseKind>>,
}

impl Dispatcher {
    /// The commands that were accepted since the dispatcher was made, in the
    /// order of their submission: those that were issued, then those that
    /// wait, or that were abandoned when the connection was closed.
    pub closed spec fn accepted(self) -> Seq<UserRequest> {
        self.history@ + self.queue@ + self.abandoned@
    }

    /// The protocol calls that were issued, in the order of their issue.
    pub closed spec fn issued(self) -> Seq<ProtocolCall> {
        calls_of(self.history@)
    }

    /// The entry points of the response sink that replies were handed to, in
    /// order.
    pub closed spec fn delivered(self) -> Seq<ResponseKind> {
        self.delivered@
    }

    /// The commands that wait to be issued, the next one first.
    pub closed spec fn waiting(self) -> Seq<UserRequest> {
        self.queue@
    }

    /// The call that is under way, if one is.
    pub closed spec fn in_flight(self) -> Option<ProtocolCall> {
        self.in_flight
    }

    /// Whether the connection still takes commands.
    pub closed spec fn is_open(self) -> bool {
        self.open
    }

    /// What holds of every dispatcher: the call under way is the last one
    /// issued; commands are abandoned only when the connection is closed; and
    /// a closed connection has nothing waiting or under way.
    pub closed spec fn wf(self) -> bool {
        &&& self.open ==> self.abandoned@.len() == 0
        &&& !self.open ==> self.queue@.len() == 0 && self.in_flight is None
        &&& self.in_flight is Some ==> self.history@.len() > 0 && self.history@.last().call()
            == self.in_flight.unwrap()
    }

    #[verifier::type_invariant]
    closed spec fn inv(self) -> bool {
        self.wf()
    }

    /// The calls that were issued are the calls of the commands that were
    /// accepted first, one call for each command, in the order of submission.
    pub proof fn lemma_calls_follow_submission(self)
        ensures
            self.issued().len() <= self.accepted().len(),
            forall|i: int|
                0 <= i < self.issued().len() ==> #[trigger] self.issued()[i]
                    == self.accepted()[i].call(),
    {
    }

    /// On a connection that was not lost, once no command waits, every
    /// command that was accepted has been issued: as many calls as commands,
    /// in the order of submission.
    pub proof fn lemma_drained_means_all_issued(self)
        requires
            self.wf(),
            self.is_open(),
            self.waiting().len() == 0,
        ensures
            self.issued().len() == self.accepted().len(),
            self.issued() == calls_of(self.accepted()),
    {
        assert(self.accepted() =~= self.history@);
    }

    /// Where a reply was handed to the response sink, the call under way had
    /// a route: no reply is handed over for a notification.
    pub proof fn lemma_in_flight_was_issued(self)
        requires
            self.wf(),
            self.in_flight() is Some,
        ensures
            self.issued().len() > 0,
            self.issued().last() == self.in_flight().unwrap(),
    {
    }

    /// A dispatcher for a connection that was just made: open, with no
    /// command accepted.
    pub fn new() -> (dispatcher: Dispatcher)
        ensures
            dispatcher.wf(),
            dispatcher.is_open(),
            dispatcher.accepted().len() == 0,
            dispatcher.issued().len() == 0,
            dispatcher.delivered().len() == 0,
            dispatcher.waiting().len() == 0,
            dispatcher.in_flight() is None,
    {
        Dispatcher {
            queue: VecDeque::new(),
            in_flight: None,
            open: true,
            history: Ghost(Seq::empty()),
            abandoned: Ghost(Seq::empty()),
            delivered: Ghost(Seq::empty()),
        }
    }

    /// Whether the connection still takes commands.
    pub fn accepts_commands(&self) -> (open: bool)
        ensures
            open == self.is_open(),
    {
        self.open
    }

    /// The number of commands that wait to be issued.
    pub fn pending(&self) -> (count: usize)
        ensures
            count == self.waiting().len(),
    {
        self.queue.len()
    }

    /// Accepts a command behind those that wait. Fails with `Closed`, and
    /// changes nothing, once the connection is closed.
    pub fn submit(&mut self, command: UserRequest) -> (result: Result<(), ConnectionError>)
        ensures
            old(self).wf(),
            final(self).wf(),
            result is Ok <==> old(self).is_open(),
            result is Ok ==> final(self).accepted() == old(self).accepted().push(command)
                && final(self).waiting() == old(self).waiting().push(command),
            result is Err ==> result->Err_0 is Closed && final(self).accepted() == old(self).accepted() && final(self).waiting() == old(self).waiting(),
            final(self).issued() == old(self).issued(),
            final(self).delivered() == old(self).delivered(),
            final(self).in_flight() == old(self).in_flight(),
            final(self).is_open() == old(self).is_open(),
    {
        proof {
            use_type_invariant(&*self);
        }
        if !self.open {
            return Err(ConnectionError::Closed);
        }
        let mut queue: VecDeque<UserRequest> = VecDeque::new();
        std::mem::swap(&mut self.queue, &mut queue);
        queue.push_back(command);
        std::mem::swap(&mut self.queue, &mut queue);
        assert(self.accepted() =~= old(self).accepted().push(command));
        Ok(())
    }

    /// Takes the next command to issue, if the connection is open, no call is
    /// under way and a command waits. The command's call is then under way
    /// until `complete` is told how it ended.
    pub fn next_call(&mut self) -> (next: Option<UserRequest>)
        ensures
            old(self).wf(),
            final(self).wf(),
            next is Some <==> old(self).is_open() && old(self).in_flight() is None && old(self).waiting().len() > 0,
            next is Some ==> next->0 == old(self).waiting()[0] && final(self).waiting() == old(self).waiting().skip(1) && final(self).issued() == old(self).issued().push(
                next->0.call(),
            ) && final(self).in_flight() == Some(next->0.call()),
            next is None ==> final(self).waiting() == old(self).waiting() && final(self).issued()
                == old(self).issued() && final(self).in_flight() == old(self).in_flight(),
            final(self).accepted() == old(self).accepted(),
            final(self).delivered() == old(self).delivered(),
            final(self).is_open() == old(self).is_open(),
    {
        proof {
            use_type_invariant(&*self);
        }
        if !self.open || self.in_flight.is_some() {
            return None;
        }
        let mut queue: VecDeque<UserRequest> = VecDeque::new();
        std::mem::swap(&mut self.queue, &mut queue);
        let next = queue.pop_front();
        std::mem::swap(&mut self.queue, &mut queue);
        match next {
            Some(command) => {
                let call = command.protocol_call();
                proof {
                    self.history@ = self.history@.push(command);
                }
                self.in_flight = Some(call);
                proof {
                    assert(self.queue@ =~= old(self).queue@.skip(1));
                    assert(self.accepted() =~= old(self).accepted());
                    assert(self.issued() =~= old(self).issued().push(call));
                }
                Some(command)
            },
            None => None,
        }
    }

    /// Takes note of how the call under way ended, and says what to do.
    ///
    /// A reply goes to the entry point of the response sink that belongs to
    /// the call; a notification that was sent goes nowhere. A failed call is
    /// reported to its caller and the loop goes on. A closed stream ends the
    /// loop: the connection takes no more commands, and those that wait are
    /// abandoned. Where no call is under way, nothing changes.
    pub fn complete(&mut self, outcome: CallOutcome) -> (completion: Completion)
        ensures
            old(self).wf(),
            final(self).wf(),
            final(self).in_flight() is None,
            final(self).accepted() == old(self).accepted(),
            final(self).issued() == old(self).issued(),
            match old(self).in_flight() {
                None => completion is Idle && final(self).waiting() == old(self).waiting()
                    && final(self).is_open() == old(self).is_open() && final(self).delivered()
                    == old(self).delivered(),
                Some(call) => match outcome {
                    CallOutcome::Done => final(self).is_open() && final(self).waiting() == old(self).waiting() && match call.route() {
                        Some(kind) => completion == Completion::Deliver(kind) && final(self).delivered() == old(self).delivered().push(kind),
                        None => completion is Sent && final(self).delivered() == old(self).delivered(),
                    },
                    CallOutcome::Failed(error) => completion is Report
                        && completion->Report_0 is Internal
                        && completion->Report_0->Internal_0@ == error.text() && final(self).is_open() && final(self).waiting() == old(self).waiting() && final(self).delivered() == old(self).delivered(),
                    CallOutcome::TransportClosed => completion is Terminate
                        && completion->abandoned == old(self).waiting().len() && !final(self).is_open() && final(self).waiting().len() == 0 && final(self).delivered()
                        == old(self).delivered(),
                },
            },
    {
        proof {
            use_type_invariant(&*self);
        }
        let call = match self.in_flight {
            Some(call) => call,
            None => {
                return Completion::Idle;
            },
        };
        self.in_flight = None;
        match outcome {
            CallOutcome::Done => match call.response() {
                Some(kind) => {
                    proof {
                        self.delivered@ = self.delivered@.push(kind);
                    }
                    Completion::Deliver(kind)
                },
                None => Completion::Sent,
            },
            CallOutcome::Failed(error) => Completion::Report(Error::from_protocol(&error)),
            CallOutcome::TransportClosed => {
                let abandoned = self.queue.len();
                let ghost dropped = self.queue@;
                let mut queue: VecDeque<UserRequest> = VecDeque::new();
                std::mem::swap(&mut self.queue, &mut queue);
                self.open = false;
                proof {
                    self.abandoned@ = dropped;
                    assert(self.accepted() =~= old(self).accepted());
                }
                Completion::Terminate { abandoned }
            },
        }
    }

    /// Closes the connection from the editor's side: no more commands are
    /// taken, and those that wait are abandoned. Returns their number.
    pub fn close(&mut self) -> (abandoned: usize)
        ensures
            old(self).wf(),
            final(self).wf(),
            !final(self).is_open(),
            abandoned == old(self).waiting().len(),
            final(self).waiting().len() == 0,
            final(self).in_flight() is None,
            final(self).accepted() == old(self).accepted(),
            final(self).issued() == old(self).issued(),
            final(self).delivered() == old(self).delivered(),
    {
        proof {
            use_type_invariant(&*self);
        }
        let abandoned = self.queue.len();
        let ghost dropped = self.queue@;
        let mut queue: VecDeque<UserRequest> = VecDeque::new();
        std::mem::swap(&mut self.queue, &mut queue);
        self.in_flight = None;
        let ghost was_open = self.open;
        self.open = false;
        proof {
            if was_open {
                self.abandoned@ = dropped;
            }
            assert(self.accepted() =~= old(self).accepted());
        }
        abandoned
    }
}

} // verus!
