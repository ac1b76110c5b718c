//! Rendered transcript items: one `ChatMessage` per displayed entry, with the
//! turn summary attached to summary entries.

use vstd::prelude::*;

verus! {

/// Who produced a transcript item.
#[derive(Clone, Copy, Debug, PartialEq, Eq, Structural)]
pub enum MessageRole {
    User,
    Assistant,
    Tool,
    System,
    Error,
    Summary,
}

impl MessageRole {
    /// The lower-case role label used when serializing transcripts.
    pub fn as_str(&self) -> (r: &'static str)
        ensures
            r@ == spec_role_label(*self),
    {
        match self {
            MessageRole::User => "user",
            MessageRole::Assistant => "assistant",
            MessageRole::Tool => "tool",
            MessageRole::System => "system",
            MessageRole::Error => "error",
            MessageRole::Summary => "summary",
        }
    }
}

/// The serialized label of each role.
pub open spec fn spec_role_label(role: MessageRole) -> Seq<char> {
    match role {
        MessageRole::User => "user"@,
        MessageRole::Assistant => "assistant"@,
        MessageRole::Tool => "tool"@,
        MessageRole::System => "system"@,
        MessageRole::Error => "error"@,
        MessageRole::Summary => "summary"@,
    }
}

/// One changed file reported for a turn.
#[derive(Clone, Debug)]
pub struct FileChange {
    pub filename: String,
    pub additions: u64,
    pub deletions: u64,
}

/// Accounting shown for one finished turn.
#[derive(Clone, Debug)]
pub struct TurnSummary {
    pub duration_secs: u64,
    pub input_tokens: u64,
    pub output_tokens: u64,
    pub files_changed: Vec<FileChange>,
}

impl TurnSummary {
    pub fn new() -> (r: TurnSummary)
        ensures
            r.duration_secs == 0,
            r.input_tokens == 0,
            r.output_tokens == 0,
            r.files_changed@.len() == 0,
    {
        TurnSummary { duration_secs: 0, input_tokens: 0, output_tokens: 0, files_changed: Vec::new() }
    }
}

/// One rendered transcript item.
#[derive(Clone, Debug)]
pub struct ChatMessage {
    pub role: MessageRole,
    pub content: String,
    pub tool_name: Option<String>,
    pub tool_args: Option<String>,
    pub exit_code: Option<i32>,
    pub summary: Option<TurnSummary>,
}

impl ChatMessage {
    /// A plain item with the given role and content and nothing else.
    pub fn plain(role: MessageRole, content: String) -> (r: ChatMessage)
        ensures
            r.role == role,
            r.content@ == content@,
            r.tool_name is None,
            r.tool_args is None,
            r.exit_code is None,
            r.summary is None,
    {
        ChatMessage {
            role,
            content,
            tool_name: None,
            tool_args: None,
            exit_code: None,
            summary: None,
        }
    }

    pub fn user(content: String) -> (r: ChatMessage)
        ensures
            r.role is User,
            r.content@ == content@,
            r.tool_name is None && r.tool_args is None && r.exit_code is None && r.summary is None,
    {
        Self::plain(MessageRole::User, content)
    }

    pub fn assistant(content: String) -> (r: ChatMessage)
        ensures
            r.role is Assistant,
            r.content@ == content@,
            r.tool_name is None && r.tool_args is None && r.exit_code is None && r.summary is None,
    {
        Self::plain(MessageRole::Assistant, content)
    }

    pub fn system(content: String) -> (r: ChatMessage)
        ensures
            r.role is System,
            r.content@ == content@,
            r.tool_name is None && r.tool_args is None && r.exit_code is None && r.summary is None,
    {
        Self::plain(MessageRole::System, content)
    }

    pub fn error(content: String) -> (r: ChatMessage)
        ensures
            r.role is Error,
            r.content@ == content@,
            r.tool_name is None && r.tool_args is None && r.exit_code is None && r.summary is None,
    {
        Self::plain(MessageRole::Error, content)
    }

    /// A tool item: name and arguments in the header, output as content.
    pub fn tool(name: String, args: String, output: String) -> (r: ChatMessage)
        ensures
            r.role is Tool,
            r.content@ == output@,
            r.tool_name matches Some(n) && n@ == name@,
            r.tool_args matches Some(a) && a@ == args@,
            r.exit_code is None,
            r.summary is None,
    {
        ChatMessage {
            role: MessageRole::Tool,
            content: output,
            tool_name: Some(name),
            tool_args: Some(args),
            exit_code: None,
            summary: None,
        }
    }

    /// A summary item carrying the turn's accounting.
    pub fn turn_summary(summary: TurnSummary) -> (r: ChatMessage)
        ensures
            r.role is Summary,
            r.content@ == Seq::<char>::empty(),
            r.summary == Some(summary),
            r.tool_name is None && r.tool_args is None && r.exit_code is None,
    {
        ChatMessage {
            role: MessageRole::Summary,
            content: String::new(),
            tool_name: None,
            tool_args: None,
            exit_code: None,
            summary: Some(summary),
        }
    }
}

} // verus!
