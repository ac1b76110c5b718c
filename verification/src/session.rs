//! Session identity and persisted metadata: identifiers that correlate a
//! record with a backend-native session, and resume metadata with usage
//! accounting.

use vstd::prelude::*;
use crate::events::SessionStatus;

verus! {

/// Opaque, globally unique, time-ordered session identifier.
#[derive(Debug, Clone, PartialEq, Eq, Hash)]
pub struct SessionId(pub String);

impl SessionId {
    /// Relies on `uuid::Uuid::now_v7` and its `Display` form: a freshly
    /// generated version-7 UUID, hyphenated, which renders as 36 characters.
    /// The value depends on the clock and randomness, so nothing more is
    /// assumed about it.
    #[verifier::external_body]
    pub fn new() -> (r: SessionId)
        ensures
            r.0@.len() == 36,
    {
        SessionId(uuid::Uuid::now_v7().to_string())
    }

    pub fn from_string(s: String) -> (r: SessionId)
        ensures
            r.0@ == s@,
    {
        SessionId(s)
    }

    pub fn as_str(&self) -> (r: &str)
        ensures
            r@ == self.0@,
    {
        self.0.as_str()
    }
}

impl Default for SessionId {
    fn default() -> (r: SessionId)
        ensures
            r.0@.len() == 36,
    {
        SessionId::new()
    }
}

/// Relies on `chrono::Utc::now` and `DateTime::timestamp_millis`: the current
/// wall-clock time in milliseconds since the Unix epoch. The value depends on
/// the clock, so nothing is assumed about it.
#[verifier::external_body]
pub fn now_millis() -> i64 {
    chrono::Utc::now().timestamp_millis()
}

/// Session metadata stored for resume capability. Timestamps are held as
/// milliseconds since the Unix epoch; the working directory as a plain path
/// string.
#[derive(Debug, Clone)]
pub struct SessionMetadata {
    pub id: SessionId,
    pub agent_type: String,
    pub created_at: i64,
    pub last_active: i64,
    pub working_dir: String,
    pub total_tokens_used: i64,
    pub turn_count: u32,
    pub status: SessionStatus,
}

impl SessionMetadata {
    /// A fresh record: zero usage, active, created and last-active now.
    pub fn new(agent_type: String, working_dir: String) -> (r: SessionMetadata)
        ensures
            r.agent_type@ == agent_type@,
            r.working_dir@ == working_dir@,
            r.total_tokens_used == 0,
            r.turn_count == 0,
            r.status is Active,
            r.created_at == r.last_active,
            r.id.0@.len() == 36,
    {
        let now = now_millis();
        SessionMetadata {
            id: SessionId::new(),
            agent_type,
            created_at: now,
            last_active: now,
            working_dir,
            total_tokens_used: 0,
            turn_count: 0,
            status: SessionStatus::Active,
        }
    }

    /// Refresh the last-active timestamp; every other field is unchanged.
    pub fn update_activity(&mut self)
        ensures
            final(self).id == old(self).id,
            final(self).agent_type == old(self).agent_type,
            final(self).created_at == old(self).created_at,
            final(self).working_dir == old(self).working_dir,
            final(self).total_tokens_used == old(self).total_tokens_used,
            final(self).turn_count == old(self).turn_count,
            final(self).status == old(self).status,
    {
        self.last_active = now_millis();
    }

    /// Add to the running token total, saturating instead of wrapping, so
    /// the counter never decreases for a non-negative delta.
    pub fn add_tokens(&mut self, tokens: i64)
        ensures
            final(self).total_tokens_used == if old(self).total_tokens_used + tokens
                > i64::MAX {
                i64::MAX
            } else if old(self).total_tokens_used + tokens < i64::MIN {
                i64::MIN
            } else {
                (old(self).total_tokens_used + tokens) as i64
            },
            tokens >= 0 ==> final(self).total_tokens_used >= old(self).total_tokens_used,
            final(self).id == old(self).id,
            final(self).turn_count == old(self).turn_count,
            final(self).status == old(self).status,
            final(self).last_active == old(self).last_active,
    {
        if tokens >= 0 {
            if self.total_tokens_used <= i64::MAX - tokens {
                self.total_tokens_used = self.total_tokens_used + tokens;
            } else {
                self.total_tokens_used = i64::MAX;
            }
        } else {
            if self.total_tokens_used >= i64::MIN - tokens {
                self.total_tokens_used = self.total_tokens_used + tokens;
            } else {
                self.total_tokens_used = i64::MIN;
            }
        }
    }

    /// Count one finished turn, saturating at the type's maximum.
    pub fn increment_turn(&mut self)
        ensures
            old(self).turn_count < u32::MAX ==> final(self).turn_count == old(self).turn_count
                + 1,
            old(self).turn_count == u32::MAX ==> final(self).turn_count == u32::MAX,
            final(self).turn_count >= old(self).turn_count,
            final(self).id == old(self).id,
            final(self).total_tokens_used == old(self).total_tokens_used,
            final(self).status == old(self).status,
    {
        if self.turn_count < u32::MAX {
            self.turn_count = self.turn_count + 1;
        }
    }
}

/// The error taxonomy of the runner boundary: transport and process errors,
/// decode errors, and configuration problems.
#[derive(Debug, Clone)]
pub enum AgentError {
    ProcessSpawnFailed,
    StdoutCaptureFailed,
    Io(String),
    JsonParse(String),
    BinaryNotFound(String),
    SessionNotFound(String),
    NotSupported(String),
    Crashed(i32),
    Timeout(u64),
    ChannelClosed,
    Config(String),
}

/// What `AgentError::message` renders for each failure.
pub open spec fn spec_error_message(e: AgentError) -> Seq<char> {
    match e {
        AgentError::ProcessSpawnFailed => "Failed to spawn agent process"@,
        AgentError::StdoutCaptureFailed => "Failed to capture stdout"@,
        AgentError::Io(m) => "IO error: "@ + m@,
        AgentError::JsonParse(m) => "JSON parse error: "@ + m@,
        AgentError::BinaryNotFound(m) => "Agent binary not found: "@ + m@,
        AgentError::SessionNotFound(m) => "Session not found: "@ + m@,
        AgentError::NotSupported(m) => "Operation not supported: "@ + m@,
        AgentError::Crashed(code) => "Agent crashed with exit code: "@ + crate::numfmt::spec_i32_str(
            code as int,
        ),
        AgentError::Timeout(ms) => "Agent timeout after "@ + crate::numfmt::spec_u64_str(
            ms as nat,
        ) + "ms"@,
        AgentError::ChannelClosed => "Channel closed unexpectedly"@,
        AgentError::Config(m) => "Configuration error: "@ + m@,
    }
}

impl AgentError {
    /// A human-readable description of the error.
    pub fn message(&self) -> (r: String)
        ensures
            r@ == spec_error_message(*self),
    {
        match self {
            AgentError::ProcessSpawnFailed => crate::text::owned("Failed to spawn agent process"),
            AgentError::StdoutCaptureFailed => crate::text::owned("Failed to capture stdout"),
            AgentError::Io(m) => {
                let mut s = String::from_str("IO error: ");
                s.append(m.as_str());
                s
            },
            AgentError::JsonParse(m) => {
                let mut s = String::from_str("JSON parse error: ");
                s.append(m.as_str());
                s
            },
            AgentError::BinaryNotFound(m) => {
                let mut s = String::from_str("Agent binary not found: ");
                s.append(m.as_str());
                s
            },
            AgentError::SessionNotFound(m) => {
                let mut s = String::from_str("Session not found: ");
                s.append(m.as_str());
                s
            },
            AgentError::NotSupported(m) => {
                let mut s = String::from_str("Operation not supported: ");
                s.append(m.as_str());
                s
            },
            AgentError::Crashed(code) => {
                let mut s = String::from_str("Agent crashed with exit code: ");
                s.append(crate::numfmt::i32_to_string(*code).as_str());
                s
            },
            AgentError::Timeout(ms) => {
                let mut s = String::from_str("Agent timeout after ");
                s.append(crate::numfmt::u64_to_string(*ms).as_str());
                s.append("ms");
                s
            },
            AgentError::ChannelClosed => crate::text::owned("Channel closed unexpectedly"),
            AgentError::Config(m) => {
                let mut s = String::from_str("Configuration error: ");
                s.append(m.as_str());
                s
            },
        }
    }
}

} // verus!
