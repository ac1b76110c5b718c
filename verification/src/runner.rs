//! The agent runner boundary: the start configuration every backend accepts,
//! its validation, and the conversion of runner failures into events so that
//! no session is ever left stuck Processing.

use vstd::prelude::*;
use crate::events::AgentEvent;
use crate::session::AgentError;
use crate::text::is_blank;

verus! {

/// The configuration handed to a backend's `start`: the literal prompt, the
/// working directory, and the recognized options.
#[derive(Debug)]
pub struct AgentStartConfig {
    pub prompt: String,
    pub working_dir: String,
    pub allowed_tools: Vec<String>,
}

impl AgentStartConfig {
    pub fn new(prompt: String, working_dir: String) -> (r: AgentStartConfig)
        ensures
            r.prompt@ == prompt@,
            r.working_dir@ == working_dir@,
            r.allowed_tools@.len() == 0,
    {
        AgentStartConfig { prompt, working_dir, allowed_tools: Vec::new() }
    }

    pub fn with_tools(self, tools: Vec<String>) -> (r: AgentStartConfig)
        ensures
            r.prompt@ == self.prompt@,
            r.working_dir@ == self.working_dir@,
            r.allowed_tools@ == tools@,
    {
        AgentStartConfig { prompt: self.prompt, working_dir: self.working_dir, allowed_tools: tools }
    }
}

/// Validate a start configuration before any process is spawned: the prompt
/// must be non-empty after trimming, or the start is rejected. (That the
/// working directory exists is checked by the caller that owns the spawn.)
pub fn validate_start_config(config: &AgentStartConfig) -> (r: Result<(), AgentError>)
    ensures
        r is Ok <==> !is_blank(config.prompt@),
        r matches Err(e) ==> e matches AgentError::Config(m) && m@
            == "prompt is empty after trimming"@,
{
    if crate::text::str_is_blank(config.prompt.as_str()) {
        Err(AgentError::Config(crate::text::owned("prompt is empty after trimming")))
    } else {
        Ok(())
    }
}

/// Convert a runner failure into the event that settles the affected turn:
/// a decode failure surfaces as a non-fatal error event and the turn goes
/// on; every transport or process failure (spawn, capture, missing binary,
/// crash, timeout, closed channel, and the rest) becomes a terminal
/// `TurnFailed` carrying the failure's message, so the session returns to
/// Idle rather than staying stuck Processing.
pub fn error_to_event(error: &AgentError) -> (r: AgentEvent)
    ensures
        error is JsonParse ==> r is Error,
        r matches AgentEvent::Error { message, is_fatal } ==> !is_fatal,
        !(error is JsonParse) ==> r is TurnFailed,
        !(error is JsonParse) ==> r.spec_is_terminal(),
        r matches AgentEvent::TurnFailed { message } ==> message@ == crate::session::spec_error_message(*error),
        r matches AgentEvent::Error { message, is_fatal } ==> message@
            == crate::session::spec_error_message(*error),
{
    let text = error.message();
    match error {
        AgentError::JsonParse(_) => AgentEvent::Error { message: text, is_fatal: false },
        _ => AgentEvent::TurnFailed { message: text },
    }
}

} // verus!
