//! Session updates: what an agent reports while it works on a session.

use crate::apc::protocol::content::ContentBlock;
use crate::apc::protocol::plan::Plan;
use crate::apc::protocol::tool_call::{ToolCall, ToolCallUpdate};
use vstd::prelude::*;
use vstd::string::StringExecFns;

verus! {

/// A string in quotes with its special characters escaped, as the `Debug`
/// format of `str` writes it.
pub uninterp spec fn debug_quoted(text: Seq<char>) -> Seq<char>;

/// Formatting a `str` with `{:?}` gives its quoted and escaped form, which
/// depends on the characters alone.
#[verifier::external_body]
pub(crate) fn debug_text(text: &str) -> (quoted: String)
    ensures
        quoted@ == debug_quoted(text@),
{
    format!("{:?}", text)
}

/// A piece of a message that is streamed to the client.
#[derive(Debug, Clone)]
pub struct ContentChunk {
    pub content: ContentBlock,
    pub meta: Option<String>,
}

impl ContentChunk {
    pub fn new(content: ContentBlock) -> (chunk: ContentChunk)
        ensures
            chunk.content == content,
            chunk.meta is None,
    {
        ContentChunk { content, meta: None }
    }
}

/// Input that a command takes as free text.
#[derive(Debug, Clone)]
pub struct UnstructuredCommandInput {
    pub hint: String,
    pub meta: Option<String>,
}

impl UnstructuredCommandInput {
    pub fn new(hint: &str) -> (input: UnstructuredCommandInput)
        ensures
            input.hint@ == hint@,
            input.meta is None,
    {
        UnstructuredCommandInput { hint: hint.to_owned(), meta: None }
    }
}

/// The input that a command takes.
#[derive(Debug, Clone)]
pub enum AvailableCommandInput {
    Unstructured(UnstructuredCommandInput),
}

/// A command that the agent offers.
#[derive(Debug, Clone)]
pub struct AvailableCommand {
    pub name: String,
    pub description: String,
    pub input: Option<AvailableCommandInput>,
    pub meta: Option<String>,
}

impl AvailableCommand {
    pub fn new(name: &str, description: &str) -> (command: AvailableCommand)
        ensures
            command.name@ == name@,
            command.description@ == description@,
            command.input is None,
            command.meta is None,
    {
        AvailableCommand {
            name: name.to_owned(),
            description: description.to_owned(),
            input: None,
            meta: None,
        }
    }

    pub fn input(self, input: AvailableCommandInput) -> (command: AvailableCommand)
        ensures
            command == (AvailableCommand { input: Some(input), ..self }),
    {
        AvailableCommand { input: Some(input), ..self }
    }
}

/// The commands that the agent offers from now on.
#[derive(Debug, Clone)]
pub struct AvailableCommandsUpdate {
    pub available_commands: Vec<AvailableCommand>,
    pub meta: Option<String>,
}

impl AvailableCommandsUpdate {
    pub fn new(available_commands: Vec<AvailableCommand>) -> (update: AvailableCommandsUpdate)
        ensures
            update.available_commands == available_commands,
            update.meta is None,
    {
        AvailableCommandsUpdate { available_commands, meta: None }
    }

    pub fn meta(self, meta: String) -> (update: AvailableCommandsUpdate)
        ensures
            update == (AvailableCommandsUpdate { meta: Some(meta), ..self }),
    {
        AvailableCommandsUpdate { meta: Some(meta), ..self }
    }
}

/// The mode that the session is in from now on.
#[derive(Debug, Clone)]
pub struct CurrentModeUpdate {
    pub current_mode_id: String,
    pub meta: Option<String>,
}

impl CurrentModeUpdate {
    pub fn new(current_mode_id: &str) -> (update: CurrentModeUpdate)
        ensures
            update.current_mode_id@ == current_mode_id@,
            update.meta is None,
    {
        CurrentModeUpdate { current_mode_id: current_mode_id.to_owned(), meta: None }
    }

    pub fn meta(self, meta: String) -> (update: CurrentModeUpdate)
        ensures
            update == (CurrentModeUpdate { meta: Some(meta), ..self }),
    {
        CurrentModeUpdate { meta: Some(meta), ..self }
    }
}

/// What a configuration option is about.
#[derive(Debug, Clone)]
pub enum SessionConfigOptionCategory {
    Mode,
    Model,
    ThoughtLevel,
    Other(String),
}

impl SessionConfigOptionCategory {
    /// The name of the category. A category of the agent's own making is
    /// written as `Other(..)` around its quoted name.
    pub open spec fn name(self) -> Seq<char> {
        match self {
            SessionConfigOptionCategory::Mode => "Mode"@,
            SessionConfigOptionCategory::Model => "Model"@,
            SessionConfigOptionCategory::ThoughtLevel => "ThoughtLevel"@,
            SessionConfigOptionCategory::Other(name) => "Other("@ + debug_quoted(name@) + ")"@,
        }
    }

    pub fn to_string(&self) -> (name: String)
        ensures
            name@ == self.name(),
    {
        match self {
            SessionConfigOptionCategory::Mode => "Mode".to_owned(),
            SessionConfigOptionCategory::Model => "Model".to_owned(),
            SessionConfigOptionCategory::ThoughtLevel => "ThoughtLevel".to_owned(),
            SessionConfigOptionCategory::Other(name) => {
                let quoted = debug_text(name.as_str());
                "Other(".to_owned().concat(quoted.as_str()).concat(")")
            },
        }
    }
}

/// One value that a select option can take.
#[derive(Debug, Clone)]
pub struct SessionConfigSelectOption {
    pub value: String,
    pub name: String,
    pub description: Option<String>,
    pub meta: Option<String>,
}

impl SessionConfigSelectOption {
    pub fn new(value: &str, name: &str) -> (option: SessionConfigSelectOption)
        ensures
            option.value@ == value@,
            option.name@ == name@,
            option.description is None,
            option.meta is None,
    {
        SessionConfigSelectOption {
            value: value.to_owned(),
            name: name.to_owned(),
            description: None,
            meta: None,
        }
    }

    pub fn description(self, description: String) -> (option: SessionConfigSelectOption)
        ensures
            option == (SessionConfigSelectOption { description: Some(description), ..self }),
    {
        SessionConfigSelectOption { description: Some(description), ..self }
    }
}

/// Values of a select option that belong together.
#[derive(Debug, Clone)]
pub struct SessionConfigSelectGroup {
    pub group: String,
    pub name: String,
    pub options: Vec<SessionConfigSelectOption>,
    pub meta: Option<String>,
}

impl SessionConfigSelectGroup {
    pub fn new(group: &str, name: &str, options: Vec<SessionConfigSelectOption>) -> (created:
        SessionConfigSelectGroup)
        ensures
            created.group@ == group@,
            created.name@ == name@,
            created.options == options,
            created.meta is None,
    {
        SessionConfigSelectGroup {
            group: group.to_owned(),
            name: name.to_owned(),
            options,
            meta: None,
        }
    }
}

/// The values of a select option: one flat list, or a list of groups.
#[derive(Debug, Clone)]
pub enum SessionConfigSelectOptions {
    Ungrouped(Vec<SessionConfigSelectOption>),
    Grouped(Vec<SessionConfigSelectGroup>),
}

/// An option whose value is one of a list.
#[derive(Debug, Clone)]
pub struct SessionConfigSelect {
    pub current_value: String,
    pub options: SessionConfigSelectOptions,
}

/// The kind of a configuration option.
#[derive(Debug, Clone)]
pub enum SessionConfigKind {
    Select(SessionConfigSelect),
    /// A kind that the bridge does not render.
    Other,
}

/// An option of the session that the user can set.
#[derive(Debug, Clone)]
pub struct SessionConfigOption {
    pub id: String,
    pub name: String,
    pub description: Option<String>,
    pub category: Option<SessionConfigOptionCategory>,
    pub kind: SessionConfigKind,
    pub meta: Option<String>,
}

impl SessionConfigOption {
    /// A select option without description and category.
    pub fn select(
        id: &str,
        name: &str,
        current_value: &str,
        options: SessionConfigSelectOptions,
    ) -> (option: SessionConfigOption)
        ensures
            option.id@ == id@,
            option.name@ == name@,
            option.description is None,
            option.category is None,
            option.kind is Select,
            option.kind->Select_0.current_value@ == current_value@,
            option.kind->Select_0.options == options,
            option.meta is None,
    {
        SessionConfigOption {
            id: id.to_owned(),
            name: name.to_owned(),
            description: None,
            category: None,
            kind: SessionConfigKind::Select(
                SessionConfigSelect { current_value: current_value.to_owned(), options },
            ),
            meta: None,
        }
    }

    pub fn description(self, description: String) -> (option: SessionConfigOption)
        ensures
            option == (SessionConfigOption { description: Some(description), ..self }),
    {
        SessionConfigOption { description: Some(description), ..self }
    }

    pub fn category(self, category: SessionConfigOptionCategory) -> (option: SessionConfigOption)
        ensures
            option == (SessionConfigOption { category: Some(category), ..self }),
    {
        SessionConfigOption { category: Some(category), ..self }
    }
}

/// The configuration options of the session, as they are from now on.
#[derive(Debug, Clone)]
pub struct ConfigOptionUpdate {
    pub config_options: Vec<SessionConfigOption>,
    pub meta: Option<String>,
}

impl ConfigOptionUpdate {
    pub fn new(config_options: Vec<SessionConfigOption>) -> (update: ConfigOptionUpdate)
        ensures
            update.config_options == config_options,
            update.meta is None,
    {
        ConfigOptionUpdate { config_options, meta: None }
    }

    pub fn meta(self, meta: String) -> (update: ConfigOptionUpdate)
        ensures
            update == (ConfigOptionUpdate { meta: Some(meta), ..self }),
    {
        ConfigOptionUpdate { meta: Some(meta), ..self }
    }
}

/// What an agent reports about a session.
#[derive(Debug, Clone)]
pub enum SessionUpdate {
    UserMessageChunk(ContentChunk),
    AgentMessageChunk(ContentChunk),
    AgentThoughtChunk(ContentChunk),
    ToolCall(ToolCall),
    ToolCallUpdate(ToolCallUpdate),
    Plan(Plan),
    AvailableCommandsUpdate(AvailableCommandsUpdate),
    CurrentModeUpdate(CurrentModeUpdate),
    ConfigOptionUpdate(ConfigOptionUpdate),
    /// A report of a kind that the bridge does not translate.
    Other,
}

/// A session update together with the session that it belongs to.
#[derive(Debug, Clone)]
pub struct SessionNotification {
    pub session_id: String,
    pub update: SessionUpdate,
    pub meta: Option<String>,
}

impl SessionNotification {
    pub fn new(session_id: &str, update: SessionUpdate) -> (notification: SessionNotification)
        ensures
            notification.session_id@ == session_id@,
            notification.update == update,
            notification.meta is None,
    {
        SessionNotification { session_id: session_id.to_owned(), update, meta: None }
    }
}

} // verus!
