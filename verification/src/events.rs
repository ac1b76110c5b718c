//! The agent event model: everything a backend can report while a turn runs,
//! and the closed set of supported backends.

use vstd::prelude::*;

verus! {

/// The closed set of supported agent backends.
#[derive(Clone, Copy, Debug, PartialEq, Eq, Structural)]
pub enum AgentType {
    Sonnet,
    Codex,
    Gemini,
}

impl AgentType {
    /// The lower-case wire name of this backend.
    pub fn as_str(&self) -> (r: &'static str)
        ensures
            self is Sonnet ==> r@ == "sonnet"@,
            self is Codex ==> r@ == "codex"@,
            self is Gemini ==> r@ == "gemini"@,
    {
        match self {
            AgentType::Sonnet => "sonnet",
            AgentType::Codex => "codex",
            AgentType::Gemini => "gemini",
        }
    }
}

/// Operating mode for backends that distinguish planning from building.
#[derive(Clone, Copy, Debug, PartialEq, Eq, Structural)]
pub enum AgentMode {
    Build,
    Plan,
}

/// The wire name of each mode.
pub open spec fn spec_mode_label(mode: AgentMode) -> Seq<char> {
    match mode {
        AgentMode::Build => "build"@,
        AgentMode::Plan => "plan"@,
    }
}

impl AgentMode {
    /// The lower-case wire name of this mode.
    pub fn as_str(&self) -> (r: &'static str)
        ensures
            r@ == spec_mode_label(*self),
    {
        match self {
            AgentMode::Build => "build",
            AgentMode::Plan => "plan",
        }
    }
}

/// Token accounting reported with a completed turn.
#[derive(Clone, Copy, Debug, PartialEq, Eq, Structural)]
pub struct TokenUsage {
    pub input_tokens: u64,
    pub output_tokens: u64,
    pub cached_tokens: u64,
}

impl TokenUsage {
    pub fn zero() -> (r: TokenUsage)
        ensures
            r.input_tokens == 0,
            r.output_tokens == 0,
            r.cached_tokens == 0,
    {
        TokenUsage { input_tokens: 0, output_tokens: 0, cached_tokens: 0 }
    }

    /// Saturating accumulation, so usage totals are monotone and never wrap.
    pub fn add(&mut self, other: TokenUsage)
        ensures
            final(self).input_tokens == sat_add_u64(old(self).input_tokens, other.input_tokens),
            final(self).output_tokens == sat_add_u64(old(self).output_tokens, other.output_tokens),
            final(self).cached_tokens == sat_add_u64(old(self).cached_tokens, other.cached_tokens),
            final(self).input_tokens >= old(self).input_tokens,
            final(self).output_tokens >= old(self).output_tokens,
            final(self).cached_tokens >= old(self).cached_tokens,
    {
        self.input_tokens = sat_add_u64_exec(self.input_tokens, other.input_tokens);
        self.output_tokens = sat_add_u64_exec(self.output_tokens, other.output_tokens);
        self.cached_tokens = sat_add_u64_exec(self.cached_tokens, other.cached_tokens);
    }
}

pub open spec fn sat_add_u64(a: u64, b: u64) -> u64 {
    if a + b > u64::MAX {
        u64::MAX
    } else {
        (a + b) as u64
    }
}

pub fn sat_add_u64_exec(a: u64, b: u64) -> (r: u64)
    ensures
        r == sat_add_u64(a, b),
        r >= a,
        r >= b,
{
    if a <= u64::MAX - b {
        a + b
    } else {
        u64::MAX
    }
}

/// Everything an agent turn can report, normalized across backends.
#[derive(Debug)]
pub enum AgentEvent {
    /// The backend announced its own session identifier; at most once,
    /// before the first turn of the session.
    SessionInit { session_id: String },
    /// A turn began.
    TurnStarted,
    /// A chunk (or the final form) of assistant output.
    AssistantMessage { text: String, is_final: bool },
    /// A tool invocation began; arguments carry the tool input rendered as text.
    ToolStarted { tool_name: String, arguments: String },
    /// A tool invocation finished.
    ToolCompleted { tool_id: String, success: bool, result: Option<String>, error: Option<String> },
    /// Output of a command the agent ran.
    CommandOutput { command: String, output: String, exit_code: Option<i32> },
    /// The turn finished successfully, with its usage.
    TurnCompleted { usage: TokenUsage },
    /// The turn failed.
    TurnFailed { message: String },
    /// An out-of-band error; fatal errors end the turn.
    Error { message: String, is_fatal: bool },
}

impl AgentEvent {
    /// A terminal event ends the turn: completion, failure, or a fatal error.
    pub open spec fn spec_is_terminal(&self) -> bool {
        match self {
            AgentEvent::TurnCompleted { .. } => true,
            AgentEvent::TurnFailed { .. } => true,
            AgentEvent::Error { is_fatal, .. } => *is_fatal,
            _ => false,
        }
    }

    #[verifier::when_used_as_spec(spec_is_terminal)]
    pub fn is_terminal(&self) -> (r: bool)
        ensures
            r == self.spec_is_terminal(),
    {
        match self {
            AgentEvent::TurnCompleted { .. } => true,
            AgentEvent::TurnFailed { .. } => true,
            AgentEvent::Error { is_fatal, .. } => *is_fatal,
            _ => false,
        }
    }

    /// Stable name of the event kind, for the raw event log.
    pub fn event_type_name(&self) -> (r: &'static str)
        ensures
            self is SessionInit ==> r@ == "SessionInit"@,
            self is TurnStarted ==> r@ == "TurnStarted"@,
            self is AssistantMessage ==> r@ == "AssistantMessage"@,
            self is ToolStarted ==> r@ == "ToolStarted"@,
            self is ToolCompleted ==> r@ == "ToolCompleted"@,
            self is CommandOutput ==> r@ == "CommandOutput"@,
            self is TurnCompleted ==> r@ == "TurnCompleted"@,
            self is TurnFailed ==> r@ == "TurnFailed"@,
            self is Error ==> r@ == "Error"@,
    {
        match self {
            AgentEvent::SessionInit { .. } => "SessionInit",
            AgentEvent::TurnStarted => "TurnStarted",
            AgentEvent::AssistantMessage { .. } => "AssistantMessage",
            AgentEvent::ToolStarted { .. } => "ToolStarted",
            AgentEvent::ToolCompleted { .. } => "ToolCompleted",
            AgentEvent::CommandOutput { .. } => "CommandOutput",
            AgentEvent::TurnCompleted { .. } => "TurnCompleted",
            AgentEvent::TurnFailed { .. } => "TurnFailed",
            AgentEvent::Error { .. } => "Error",
        }
    }
}

/// Lifecycle status stored with session metadata.
#[derive(Clone, Copy, Debug, PartialEq, Eq, Structural)]
pub enum SessionStatus {
    Active,
    Completed,
    Failed,
    Abandoned,
}

} // verus!
