//! From a session notification to the event that the editor receives.
//!
//! An event is a named signal with a flat record. Its name joins the source
//! of the update with its kind, and its record is the translated update with
//! the session's id appended. Emitting the event is the caller's part.

use crate::apc::error::{ProtocolError, ProtocolFailure, TranslationError};
use crate::apc::protocol::session::{SessionNotification, SessionUpdate};
use crate::nvim::event::available_commands::{available_commands_event, available_commands_fields};
use crate::nvim::event::communication::{communication, content_outcome, content_tag};
use crate::nvim::event::config_option::{config_option_event, config_option_update_fields};
use crate::nvim::event::current_mode::{current_mode_event, current_mode_fields};
use crate::nvim::event::plan::{plan_event, plan_fields};
use crate::nvim::event::tool_call::{
    required_paths, tool_call_event, tool_call_outcome, tool_call_paths,
};
use crate::nvim::event::tool_call_content::FileRead;
use crate::nvim::event::tool_call_update::{
    required_update_paths, tool_call_update_event, update_outcome, update_paths,
};
use crate::nvim::value::{dictionary_entries, insert_text, Fields, Value};
use nvim_oxi::Dictionary;
use vstd::prelude::*;
use vstd::string::StringExecFns;

verus! {

/// A signal for the editor: its name, the group under which it is emitted,
/// and its payload.
pub struct Event {
    pub name: String,
    pub group: String,
    pub data: Dictionary,
}

/// Turns session notifications into events of one group.
#[derive(Clone)]
pub struct EventHandler {
    group: String,
}

/// The name of the event for an update: the source of the update joined with
/// its kind. An update that is not translated has no event, and the empty
/// name.
pub open spec fn event_name(update: SessionUpdate) -> Seq<char> {
    match update {
        SessionUpdate::UserMessageChunk(chunk) => "UserMessage"@ + content_tag(chunk.content),
        SessionUpdate::AgentMessageChunk(chunk) => "AgentMessage"@ + content_tag(chunk.content),
        SessionUpdate::AgentThoughtChunk(chunk) => "AgentThought"@ + content_tag(chunk.content),
        SessionUpdate::ToolCall(_) => "AgentToolCall"@,
        SessionUpdate::ToolCallUpdate(_) => "AgentToolCallUpdate"@,
        SessionUpdate::Plan(_) => "AgentPlan"@,
        SessionUpdate::AvailableCommandsUpdate(_) => "AgentAvailableCommands"@,
        SessionUpdate::CurrentModeUpdate(_) => "AgentCurrentMode"@,
        SessionUpdate::ConfigOptionUpdate(_) => "AgentConfigOption"@,
        SessionUpdate::Other => Seq::empty(),
    }
}

/// The files whose contents the translation of an update needs, in the order
/// in which it uses their reads. Only tool calls and their updates need any.
pub open spec fn session_update_paths(update: SessionUpdate) -> Seq<Seq<char>> {
    match update {
        SessionUpdate::ToolCall(call) => tool_call_paths(call),
        SessionUpdate::ToolCallUpdate(update) => update_paths(update),
        _ => Seq::empty(),
    }
}

/// What the translation of an update comes to: its record, or the failure.
/// An update of a kind that is not translated fails with `MethodNotFound`.
pub open spec fn session_update_outcome(update: SessionUpdate, reads: Seq<FileRead>) -> Result<
    Fields,
    ProtocolFailure,
> {
    match update {
        SessionUpdate::UserMessageChunk(chunk)
        | SessionUpdate::AgentMessageChunk(chunk)
        | SessionUpdate::AgentThoughtChunk(chunk) => match content_outcome(chunk.content) {
            Ok((fields, _)) => Ok(fields),
            Err(failure) => Err(failure),
        },
        SessionUpdate::ToolCall(call) => tool_call_outcome(call, reads),
        SessionUpdate::ToolCallUpdate(update) => update_outcome(update, reads),
        SessionUpdate::Plan(plan) => Ok(plan_fields(plan)),
        SessionUpdate::AvailableCommandsUpdate(update) => Ok(available_commands_fields(update)),
        SessionUpdate::CurrentModeUpdate(update) => Ok(current_mode_fields(update)),
        SessionUpdate::ConfigOptionUpdate(update) => Ok(config_option_update_fields(update)),
        SessionUpdate::Other => Err(ProtocolFailure::MethodNotFound),
    }
}

/// What a notification comes to: the name of its event and the event's
/// record, which is the record of the update with `session_id` appended.
pub open spec fn notification_outcome(notification: SessionNotification, reads: Seq<FileRead>) -> Result<
    (Seq<char>, Fields),
    ProtocolFailure,
> {
    match session_update_outcome(notification.update, reads) {
        Ok(fields) => Ok(
            (
                event_name(notification.update),
                fields.push(("session_id"@, Value::Text(notification.session_id@))),
            ),
        ),
        Err(failure) => Err(failure),
    }
}

/// The paths of the files whose contents the translation of `notification`
/// needs. The caller reads them and hands the outcomes to
/// `session_notification` in the same order.
pub fn notification_paths(notification: &SessionNotification) -> (paths: Vec<String>)
    ensures
        paths@.len() == session_update_paths(notification.update).len(),
        forall|k: int|
            0 <= k < paths@.len() ==> (#[trigger] paths@[k])@ == session_update_paths(
                notification.update,
            )[k],
{
    match &notification.update {
        SessionUpdate::ToolCall(call) => required_paths(call),
        SessionUpdate::ToolCallUpdate(update) => required_update_paths(update),
        _ => Vec::new(),
    }
}

/// Translates an update into its record and the name of its event.
fn translate_update(update: SessionUpdate, reads: Vec<FileRead>) -> (result: Result<
    (Dictionary, String),
    ProtocolError,
>)
    ensures
        match session_update_outcome(update, reads@) {
            Ok(fields) => result is Ok && dictionary_entries(result->Ok_0.0) == fields
                && result->Ok_0.1@ == event_name(update),
            Err(failure) => result is Err && result->Err_0@ == failure,
        },
{
    match update {
        SessionUpdate::UserMessageChunk(chunk) => match communication(chunk.content) {
            Ok((dict, tag)) => Ok((dict, "UserMessage".to_owned().concat(tag.as_str()))),
            Err(error) => Err(error),
        },
        SessionUpdate::AgentMessageChunk(chunk) => match communication(chunk.content) {
            Ok((dict, tag)) => Ok((dict, "AgentMessage".to_owned().concat(tag.as_str()))),
            Err(error) => Err(error),
        },
        SessionUpdate::AgentThoughtChunk(chunk) => match communication(chunk.content) {
            Ok((dict, tag)) => Ok((dict, "AgentThought".to_owned().concat(tag.as_str()))),
            Err(error) => Err(error),
        },
        SessionUpdate::ToolCall(call) => match tool_call_event(call, reads) {
            Ok(dict) => Ok((dict, "AgentToolCall".to_owned())),
            Err(error) => Err(error),
        },
        SessionUpdate::ToolCallUpdate(update) => match tool_call_update_event(update, reads) {
            Ok(dict) => Ok((dict, "AgentToolCallUpdate".to_owned())),
            Err(error) => Err(error),
        },
        SessionUpdate::Plan(plan) => match plan_event(plan) {
            Ok(dict) => Ok((dict, "AgentPlan".to_owned())),
            Err(error) => Err(error),
        },
        SessionUpdate::AvailableCommandsUpdate(update) => match available_commands_event(update) {
            Ok(dict) => Ok((dict, "AgentAvailableCommands".to_owned())),
            Err(error) => Err(error),
        },
        SessionUpdate::CurrentModeUpdate(update) => match current_mode_event(update) {
            Ok(dict) => Ok((dict, "AgentCurrentMode".to_owned())),
            Err(error) => Err(error),
        },
        SessionUpdate::ConfigOptionUpdate(update) => match config_option_event(update) {
            Ok(dict) => Ok((dict, "AgentConfigOption".to_owned())),
            Err(error) => Err(error),
        },
        SessionUpdate::Other => Err(TranslationError::UnsupportedVariant.into_protocol_error()),
    }
}

impl EventHandler {
    /// The group under which the handler's events are emitted.
    pub closed spec fn group_name(self) -> Seq<char> {
        self.group@
    }

    pub fn new(group: String) -> (handler: EventHandler)
        ensures
            handler.group_name() == group@,
    {
        EventHandler { group }
    }

    pub fn group(&self) -> (group: &str)
        ensures
            group@ == self.group_name(),
    {
        self.group.as_str()
    }

    /// Translates a session notification into the event to emit, given the
    /// outcomes of reading the files named by `notification_paths`, in that
    /// order.
    ///
    /// The event's record is the record of the update with the session's id
    /// appended under `session_id`. A notification of a kind that is not
    /// translated fails with `MethodNotFound`; a notification whose
    /// translation fails gives that failure, and no event.
    pub fn session_notification(&self, args: SessionNotification, reads: Vec<FileRead>) -> (result:
        Result<Event, ProtocolError>)
        ensures
            match notification_outcome(args, reads@) {
                Ok((name, fields)) => result is Ok && result->Ok_0.name@ == name
                    && dictionary_entries(result->Ok_0.data) == fields && result->Ok_0.group@
                    == self.group_name(),
                Err(failure) => result is Err && result->Err_0@ == failure,
            },
    {
        let SessionNotification { session_id, update, meta: _ } = args;
        match translate_update(update, reads) {
            Ok((mut data, name)) => {
                insert_text(&mut data, "session_id", session_id.as_str());
                Ok(Event { name, group: self.group.clone(), data })
            },
            Err(error) => Err(error),
        }
    }
}

impl Default for EventHandler {
    fn default() -> (handler: EventHandler)
        ensures
            handler.group_name() == "Hermes"@,
    {
        EventHandler { group: "Hermes".to_owned() }
    }
}

} // verus!
