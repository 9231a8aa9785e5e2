//! Tool calls: what an agent does on the user's behalf.

use crate::apc::protocol::content::ContentBlock;
use vstd::prelude::*;

verus! {

/// The category of a tool.
#[derive(PartialEq, Eq, Clone, Copy, Debug, Structural)]
pub enum ToolKind {
    Read,
    Edit,
    Delete,
    Move,
    Search,
    Execute,
    Think,
    Fetch,
    SwitchMode,
    Other,
}

impl ToolKind {
    /// The name of the category.
    pub open spec fn name(self) -> Seq<char> {
        match self {
            ToolKind::Read => "Read"@,
            ToolKind::Edit => "Edit"@,
            ToolKind::Delete => "Delete"@,
            ToolKind::Move => "Move"@,
            ToolKind::Search => "Search"@,
            ToolKind::Execute => "Execute"@,
            ToolKind::Think => "Think"@,
            ToolKind::Fetch => "Fetch"@,
            ToolKind::SwitchMode => "SwitchMode"@,
            ToolKind::Other => "Other"@,
        }
    }

    pub fn as_str(&self) -> (name: &'static str)
        ensures
            name@ == self.name(),
    {
        match self {
            ToolKind::Read => "Read",
            ToolKind::Edit => "Edit",
            ToolKind::Delete => "Delete",
            ToolKind::Move => "Move",
            ToolKind::Search => "Search",
            ToolKind::Execute => "Execute",
            ToolKind::Think => "Think",
            ToolKind::Fetch => "Fetch",
            ToolKind::SwitchMode => "SwitchMode",
            ToolKind::Other => "Other",
        }
    }
}

/// How far a tool call has come.
#[derive(PartialEq, Eq, Clone, Copy, Debug, Structural)]
pub enum ToolCallStatus {
    Pending,
    InProgress,
    Completed,
    Failed,
}

impl ToolCallStatus {
    /// The name of the status.
    pub open spec fn name(self) -> Seq<char> {
        match self {
            ToolCallStatus::Pending => "Pending"@,
            ToolCallStatus::InProgress => "InProgress"@,
            ToolCallStatus::Completed => "Completed"@,
            ToolCallStatus::Failed => "Failed"@,
        }
    }

    pub fn as_str(&self) -> (name: &'static str)
        ensures
            name@ == self.name(),
    {
        match self {
            ToolCallStatus::Pending => "Pending",
            ToolCallStatus::InProgress => "InProgress",
            ToolCallStatus::Completed => "Completed",
            ToolCallStatus::Failed => "Failed",
        }
    }
}

/// A content block produced by a tool call.
#[derive(Debug, Clone)]
pub struct Content {
    pub content: ContentBlock,
    pub meta: Option<String>,
}

impl Content {
    pub fn new(content: ContentBlock) -> (wrapped: Content)
        ensures
            wrapped.content == content,
            wrapped.meta is None,
    {
        Content { content, meta: None }
    }
}

/// A terminal whose output belongs to a tool call.
#[derive(Debug, Clone)]
pub struct Terminal {
    pub terminal_id: String,
    pub meta: Option<String>,
}

impl Terminal {
    pub fn new(terminal_id: &str) -> (terminal: Terminal)
        ensures
            terminal.terminal_id@ == terminal_id@,
            terminal.meta is None,
    {
        Terminal { terminal_id: terminal_id.to_owned(), meta: None }
    }
}

/// A change to a file: its path, the text after the change and, where it is
/// known, the text before.
#[derive(Debug, Clone)]
pub struct Diff {
    pub path: String,
    pub old_text: Option<String>,
    pub new_text: String,
    pub meta: Option<String>,
}

impl Diff {
    pub fn new(path: &str, new_text: &str) -> (diff: Diff)
        ensures
            diff.path@ == path@,
            diff.new_text@ == new_text@,
            diff.old_text is None,
            diff.meta is None,
    {
        Diff { path: path.to_owned(), old_text: None, new_text: new_text.to_owned(), meta: None }
    }

    pub fn old_text(self, old_text: Option<String>) -> (diff: Diff)
        ensures
            diff == (Diff { old_text, ..self }),
    {
        Diff { old_text, ..self }
    }
}

/// What a tool call produced.
#[derive(Debug, Clone)]
pub enum ToolCallContent {
    Content(Content),
    Diff(Diff),
    Terminal(Terminal),
}

/// A place in a file that a tool call touches.
#[derive(Debug, Clone)]
pub struct ToolCallLocation {
    pub path: String,
    pub line: Option<u32>,
    pub meta: Option<String>,
}

impl ToolCallLocation {
    pub fn new(path: &str) -> (location: ToolCallLocation)
        ensures
            location.path@ == path@,
            location.line is None,
            location.meta is None,
    {
        ToolCallLocation { path: path.to_owned(), line: None, meta: None }
    }
}

/// A tool call as the agent announces it.
#[derive(Debug, Clone)]
pub struct ToolCall {
    pub tool_call_id: String,
    pub title: String,
    pub kind: ToolKind,
    pub status: ToolCallStatus,
    pub content: Vec<ToolCallContent>,
    pub locations: Vec<ToolCallLocation>,
    /// The tool's raw input, in its canonical text form.
    pub raw_input: Option<String>,
    /// The tool's raw output, in its canonical text form.
    pub raw_output: Option<String>,
    pub meta: Option<String>,
}

impl ToolCall {
    /// A pending call of a tool of kind `Other`, without content.
    pub fn new(tool_call_id: &str, title: &str) -> (call: ToolCall)
        ensures
            call.tool_call_id@ == tool_call_id@,
            call.title@ == title@,
            call.kind == ToolKind::Other,
            call.status == ToolCallStatus::Pending,
            call.content@.len() == 0,
            call.locations@.len() == 0,
            call.raw_input is None,
            call.raw_output is None,
            call.meta is None,
    {
        ToolCall {
            tool_call_id: tool_call_id.to_owned(),
            title: title.to_owned(),
            kind: ToolKind::Other,
            status: ToolCallStatus::Pending,
            content: Vec::new(),
            locations: Vec::new(),
            raw_input: None,
            raw_output: None,
            meta: None,
        }
    }

    pub fn kind(self, kind: ToolKind) -> (call: ToolCall)
        ensures
            call == (ToolCall { kind, ..self }),
    {
        ToolCall { kind, ..self }
    }

    pub fn status(self, status: ToolCallStatus) -> (call: ToolCall)
        ensures
            call == (ToolCall { status, ..self }),
    {
        ToolCall { status, ..self }
    }

    pub fn content(self, content: Vec<ToolCallContent>) -> (call: ToolCall)
        ensures
            call == (ToolCall { content, ..self }),
    {
        ToolCall { content, ..self }
    }

    pub fn locations(self, locations: Vec<ToolCallLocation>) -> (call: ToolCall)
        ensures
            call == (ToolCall { locations, ..self }),
    {
        ToolCall { locations, ..self }
    }

    pub fn raw_input(self, raw_input: String) -> (call: ToolCall)
        ensures
            call == (ToolCall { raw_input: Some(raw_input), ..self }),
    {
        ToolCall { raw_input: Some(raw_input), ..self }
    }

    pub fn raw_output(self, raw_output: String) -> (call: ToolCall)
        ensures
            call == (ToolCall { raw_output: Some(raw_output), ..self }),
    {
        ToolCall { raw_output: Some(raw_output), ..self }
    }
}

/// The fields of a tool call that an update may change. An absent field
/// stays as it was.
#[derive(Debug, Clone)]
pub struct ToolCallUpdateFields {
    pub kind: Option<ToolKind>,
    pub status: Option<ToolCallStatus>,
    pub title: Option<String>,
    pub content: Option<Vec<ToolCallContent>>,
    pub locations: Option<Vec<ToolCallLocation>>,
    pub raw_input: Option<String>,
    pub raw_output: Option<String>,
}

impl ToolCallUpdateFields {
    pub fn new() -> (fields: ToolCallUpdateFields)
        ensures
            fields.kind is None,
            fields.status is None,
            fields.title is None,
            fields.content is None,
            fields.locations is None,
            fields.raw_input is None,
            fields.raw_output is None,
    {
        ToolCallUpdateFields {
            kind: None,
            status: None,
            title: None,
            content: None,
            locations: None,
            raw_input: None,
            raw_output: None,
        }
    }

    pub fn kind(self, kind: ToolKind) -> (fields: ToolCallUpdateFields)
        ensures
            fields == (ToolCallUpdateFields { kind: Some(kind), ..self }),
    {
        ToolCallUpdateFields { kind: Some(kind), ..self }
    }

    pub fn status(self, status: ToolCallStatus) -> (fields: ToolCallUpdateFields)
        ensures
            fields == (ToolCallUpdateFields { status: Some(status), ..self }),
    {
        ToolCallUpdateFields { status: Some(status), ..self }
    }

    pub fn title(self, title: String) -> (fields: ToolCallUpdateFields)
        ensures
            fields == (ToolCallUpdateFields { title: Some(title), ..self }),
    {
        ToolCallUpdateFields { title: Some(title), ..self }
    }

    pub fn content(self, content: Vec<ToolCallContent>) -> (fields: ToolCallUpdateFields)
        ensures
            fields == (ToolCallUpdateFields { content: Some(content), ..self }),
    {
        ToolCallUpdateFields { content: Some(content), ..self }
    }

    pub fn locations(self, locations: Vec<ToolCallLocation>) -> (fields: ToolCallUpdateFields)
        ensures
            fields == (ToolCallUpdateFields { locations: Some(locations), ..self }),
    {
        ToolCallUpdateFields { locations: Some(locations), ..self }
    }
}

/// A change to a tool call that was announced before.
#[derive(Debug, Clone)]
pub struct ToolCallUpdate {
    pub tool_call_id: String,
    pub fields: ToolCallUpdateFields,
    pub meta: Option<String>,
}

impl ToolCallUpdate {
    pub fn new(tool_call_id: &str, fields: ToolCallUpdateFields) -> (update: ToolCallUpdate)
        ensures
            update.tool_call_id@ == tool_call_id@,
            update.fields == fields,
            update.meta is None,
    {
        ToolCallUpdate { tool_call_id: tool_call_id.to_owned(), fields, meta: None }
    }

    pub fn meta(self, meta: String) -> (update: ToolCallUpdate)
        ensures
            update == (ToolCallUpdate { meta: Some(meta), ..self }),
    {
        ToolCallUpdate { meta: Some(meta), ..self }
    }
}

} // verus!
