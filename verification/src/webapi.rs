//! The request/response shapes of the remote surface and the pure parts of
//! its handlers: request parsing and validation, error mapping, and the
//! pagination window over a session's history.

use vstd::prelude::*;
use crate::chat::ChatMessage;
use crate::events::{AgentMode, AgentType};
use crate::service::{ServiceError, clone_opt_string, opt_string_like};
use crate::text::{ascii_lower, owned, spec_ascii_lower};

verus! {

broadcast use vstd::string::group_string_axioms;

/// Typed failures of the remote surface.
#[derive(Debug)]
pub enum WebError {
    BadRequest(String),
    NotFound(String),
    Internal(String),
}

/// Map a service failure onto the remote surface's error taxonomy: invalid
/// input becomes a bad request, and the not-found and internal kinds map to
/// their namesakes, each keeping its message.
pub fn map_service_error(error: ServiceError) -> (r: WebError)
    ensures
        error matches ServiceError::InvalidInput(m) ==> r matches WebError::BadRequest(w) && w@
            == m@,
        error matches ServiceError::NotFound(m) ==> r matches WebError::NotFound(w) && w@ == m@,
        error matches ServiceError::Internal(m) ==> r matches WebError::Internal(w) && w@ == m@,
{
    match error {
        ServiceError::InvalidInput(message) => WebError::BadRequest(message),
        ServiceError::NotFound(message) => WebError::NotFound(message),
        ServiceError::Internal(message) => WebError::Internal(message),
    }
}

/// Parse a backend name, case-insensitively: one of the closed set, or a
/// bad-request error naming the valid choices.
pub fn parse_agent_type(s: &str) -> (r: Result<AgentType, WebError>)
    ensures
        spec_ascii_lower(s@) == "sonnet"@ ==> r == Ok::<AgentType, WebError>(AgentType::Sonnet),
        spec_ascii_lower(s@) == "codex"@ ==> r == Ok::<AgentType, WebError>(AgentType::Codex),
        spec_ascii_lower(s@) == "gemini"@ ==> r == Ok::<AgentType, WebError>(AgentType::Gemini),
        (spec_ascii_lower(s@) != "sonnet"@ && spec_ascii_lower(s@) != "codex"@ && spec_ascii_lower(
            s@,
        ) != "gemini"@) ==> r matches Err(WebError::BadRequest(_)),
{
    proof {
        reveal_strlit("sonnet");
        reveal_strlit("codex");
        reveal_strlit("gemini");
        assert("sonnet"@.len() == 6);
        assert("codex"@.len() == 5);
        assert("gemini"@.len() == 6);
        assert("sonnet"@ != "codex"@);
        assert("sonnet"@[0] == 's' && "gemini"@[0] == 'g');
        assert("sonnet"@ != "gemini"@);
        assert("codex"@ != "gemini"@);
    }
    let lower = ascii_lower(s);
    if crate::service::str_eq(lower.as_str(), "sonnet") {
        Ok(AgentType::Sonnet)
    } else if crate::service::str_eq(lower.as_str(), "codex") {
        Ok(AgentType::Codex)
    } else if crate::service::str_eq(lower.as_str(), "gemini") {
        Ok(AgentType::Gemini)
    } else {
        let mut m = String::from_str("Invalid agent type: ");
        m.append(s);
        m.append(". Must be one of: sonnet, codex, gemini");
        Err(WebError::BadRequest(m))
    }
}

/// Parse an agent mode, case-insensitively: `build` or `plan`.
pub fn parse_agent_mode(s: &str) -> (r: Result<AgentMode, WebError>)
    ensures
        spec_ascii_lower(s@) == "build"@ ==> r == Ok::<AgentMode, WebError>(AgentMode::Build),
        spec_ascii_lower(s@) == "plan"@ ==> r == Ok::<AgentMode, WebError>(AgentMode::Plan),
        (spec_ascii_lower(s@) != "build"@ && spec_ascii_lower(s@) != "plan"@) ==> r matches Err(
            WebError::BadRequest(_),
        ),
{
    proof {
        reveal_strlit("build");
        reveal_strlit("plan");
        assert("build"@.len() == 5);
        assert("plan"@.len() == 4);
        assert("build"@ != "plan"@);
    }
    let lower = ascii_lower(s);
    if crate::service::str_eq(lower.as_str(), "build") {
        Ok(AgentMode::Build)
    } else if crate::service::str_eq(lower.as_str(), "plan") {
        Ok(AgentMode::Plan)
    } else {
        let mut m = String::from_str("Invalid agent mode: ");
        m.append(s);
        m.append(". Must be 'build' or 'plan'");
        Err(WebError::BadRequest(m))
    }
}

/// Request to create a new session.
#[derive(Debug)]
pub struct CreateSessionRequest {
    pub workspace_id: Option<String>,
    pub agent_type: String,
    pub model: Option<String>,
}

/// Request to update an existing session.
#[derive(Debug)]
pub struct UpdateSessionRequest {
    pub model: Option<String>,
    pub agent_type: Option<String>,
    pub agent_mode: Option<String>,
}

/// Request to create a new repository.
#[derive(Debug)]
pub struct CreateRepositoryRequest {
    pub name: String,
    pub base_path: Option<String>,
    pub repository_url: Option<String>,
}

impl CreateRepositoryRequest {
    /// Validate the request: a name is required, and at least one of a local
    /// base path or a repository URL.
    pub fn validate(&self) -> (r: Result<(), WebError>)
        ensures
            r is Ok <==> (self.name@.len() > 0 && (self.base_path is Some || self.repository_url
                is Some)),
            r matches Err(e) ==> e matches WebError::BadRequest(m) && m@ == (
            if self.name@.len() == 0 {
                "Repository name is required"@
            } else {
                "Either base_path or repository_url is required"@
            }),
    {
        if self.name.as_str().unicode_len() == 0 {
            return Err(WebError::BadRequest(owned("Repository name is required")));
        }
        if self.base_path.is_none() && self.repository_url.is_none() {
            return Err(
                WebError::BadRequest(owned("Either base_path or repository_url is required")),
            );
        }
        Ok(())
    }
}

/// Request to create a new workspace.
#[derive(Debug)]
pub struct CreateWorkspaceRequest {
    pub name: String,
    pub branch: String,
    pub path: String,
    pub is_default: bool,
}

impl CreateWorkspaceRequest {
    /// Validate the request: name, branch and path are all required, checked
    /// in that order.
    pub fn validate(&self) -> (r: Result<(), WebError>)
        ensures
            r is Ok <==> (self.name@.len() > 0 && self.branch@.len() > 0 && self.path@.len() > 0),
            r matches Err(e) ==> e matches WebError::BadRequest(m) && m@ == (
            if self.name@.len() == 0 {
                "Workspace name is required"@
            } else if self.branch@.len() == 0 {
                "Branch is required"@
            } else {
                "Path is required"@
            }),
    {
        if self.name.as_str().unicode_len() == 0 {
            return Err(WebError::BadRequest(owned("Workspace name is required")));
        }
        if self.branch.as_str().unicode_len() == 0 {
            return Err(WebError::BadRequest(owned("Branch is required")));
        }
        if self.path.as_str().unicode_len() == 0 {
            return Err(WebError::BadRequest(owned("Path is required")));
        }
        Ok(())
    }
}

/// Git diff statistics for a workspace.
#[derive(Debug, Clone, Copy, PartialEq, Eq, Structural)]
pub struct GitDiffStatsResponse {
    pub additions: usize,
    pub deletions: usize,
    pub files_changed: usize,
}

impl GitDiffStatsResponse {
    pub fn new(additions: usize, deletions: usize, files_changed: usize) -> (r:
        GitDiffStatsResponse)
        ensures
            r.additions == additions,
            r.deletions == deletions,
            r.files_changed == files_changed,
    {
        GitDiffStatsResponse { additions, deletions, files_changed }
    }

    /// Whether the diff reports any change at all.
    pub fn has_changes(&self) -> (r: bool)
        ensures
            r == (self.additions > 0 || self.deletions > 0 || self.files_changed > 0),
    {
        self.additions > 0 || self.deletions > 0 || self.files_changed > 0
    }
}

/// Pull-request status for a workspace.
#[derive(Debug)]
pub struct PrStatusResponse {
    pub number: u32,
    pub state: String,
    pub checks_passing: bool,
    pub url: Option<String>,
}

/// Combined git and PR status of a workspace.
#[derive(Debug)]
pub struct WorkspaceStatusResponse {
    pub git_stats: Option<GitDiffStatsResponse>,
    pub pr_status: Option<PrStatusResponse>,
}

/// Pagination query over a session's history.
#[derive(Debug, Clone, Copy)]
pub struct SessionEventsQuery {
    pub limit: Option<usize>,
    pub offset: Option<usize>,
    pub tail: bool,
}

/// The half-open window `[start, end)` selected by a pagination query over
/// `total` items: the limit defaults to everything and is capped at the
/// total; `tail` selects the most recent `limit` items; otherwise the window
/// starts at the (capped) offset.
/// The start of the half-open window `[start, end)` a pagination query
/// selects over `total` items: the limit defaults to everything and is
/// capped at the total; `tail` selects the most recent `limit` items;
/// otherwise the window starts at the (capped) offset.
pub open spec fn spec_window_start(total: int, query: SessionEventsQuery) -> int {
    let limit = spec_window_limit(total, query);
    if query.tail {
        total - limit
    } else {
        match query.offset {
            Some(o) => if o <= total {
                o as int
            } else {
                total
            },
            None => 0,
        }
    }
}

/// The end of the selected window.
pub open spec fn spec_window_end(total: int, query: SessionEventsQuery) -> int {
    if query.tail {
        total
    } else {
        let start = spec_window_start(total, query);
        let limit = spec_window_limit(total, query);
        if start + limit <= total {
            start + limit
        } else {
            total
        }
    }
}

/// The effective limit: the requested one capped at the total, defaulting
/// to everything.
pub open spec fn spec_window_limit(total: int, query: SessionEventsQuery) -> int {
    match query.limit {
        Some(l) => if l <= total {
            l as int
        } else {
            total
        },
        None => total,
    }
}

/// Compute the window `[start, end)` a query selects over `total` items.
pub fn select_events_window(total: usize, query: &SessionEventsQuery) -> (r: (usize, usize))
    ensures
        r.0 <= r.1 <= total,
        r.0 == spec_window_start(total as int, *query),
        r.1 == spec_window_end(total as int, *query),
{
    let limit: usize = match query.limit {
        Some(l) => if l <= total {
            l
        } else {
            total
        },
        None => total,
    };
    if query.tail {
        (total - limit, total)
    } else {
        let start: usize = match query.offset {
            Some(o) => if o <= total {
                o
            } else {
                total
            },
            None => 0,
        };
        let end: usize = if limit <= total - start {
            start + limit
        } else {
            total
        };
        (start, end)
    }
}

/// One history item of the remote surface.
#[derive(Debug)]
pub struct SessionEventResponse {
    pub role: String,
    pub content: String,
    pub tool_name: Option<String>,
    pub tool_args: Option<String>,
    pub exit_code: Option<i32>,
    pub summary: Option<TurnSummaryResponse>,
}

/// Turn summary information of the remote surface.
#[derive(Debug, Clone, Copy, PartialEq, Eq, Structural)]
pub struct TurnSummaryResponse {
    pub duration_secs: u64,
    pub input_tokens: u64,
    pub output_tokens: u64,
}

/// The selected history window, with its pagination echo.
#[derive(Debug)]
pub struct ListSessionEventsResponse {
    pub events: Vec<SessionEventResponse>,
    pub total: usize,
    pub offset: usize,
    pub limit: usize,
}

/// The response form of one transcript item: the role label, the content,
/// and the tool and summary attributes that are present.
pub open spec fn event_response_like(r: SessionEventResponse, m: ChatMessage) -> bool {
    &&& r.role@ == crate::chat::spec_role_label(m.role)
    &&& r.content@ == m.content@
    &&& opt_string_like(r.tool_name, m.tool_name)
    &&& opt_string_like(r.tool_args, m.tool_args)
    &&& r.exit_code == m.exit_code
    &&& (m.summary matches Some(s) ==> r.summary matches Some(sr) && sr.duration_secs
        == s.duration_secs && sr.input_tokens == s.input_tokens && sr.output_tokens
        == s.output_tokens)
    &&& (m.summary is None ==> r.summary is None)
}

/// Select a pagination window over a transcript and convert each item to its
/// response form, in order.
pub fn session_events_response(messages: &Vec<ChatMessage>, query: &SessionEventsQuery) -> (r:
    ListSessionEventsResponse)
    ensures
        r.total == messages@.len(),
        r.offset == spec_window_start(messages@.len() as int, *query),
        r.offset + r.limit == spec_window_end(messages@.len() as int, *query),
        r.events@.len() == r.limit,
        forall|i: int|
            0 <= i < r.events@.len() ==> #[trigger] event_response_like(
                r.events@[i],
                messages@[r.offset + i],
            ),
{
    let total = messages.len();
    let window = select_events_window(total, query);
    let start = window.0;
    let end = window.1;
    let mut events: Vec<SessionEventResponse> = Vec::new();
    let mut i: usize = start;
    while i < end
        invariant
            start <= i <= end <= total,
            total == messages@.len(),
            events@.len() == i - start,
            forall|j: int|
                0 <= j < events@.len() ==> #[trigger] event_response_like(
                    events@[j],
                    messages@[start + j],
                ),
        decreases end - i,
    {
        let m = &messages[i];
        let summary: Option<TurnSummaryResponse> = match &m.summary {
            Some(s) => Some(
                TurnSummaryResponse {
                    duration_secs: s.duration_secs,
                    input_tokens: s.input_tokens,
                    output_tokens: s.output_tokens,
                },
            ),
            None => None,
        };
        let resp = SessionEventResponse {
            role: owned(m.role.as_str()),
            content: owned(m.content.as_str()),
            tool_name: clone_opt_string(&m.tool_name),
            tool_args: clone_opt_string(&m.tool_args),
            exit_code: m.exit_code,
            summary,
        };
        events.push(resp);
        i = i + 1;
    }
    ListSessionEventsResponse { events, total, offset: start, limit: end - start }
}

} // verus!
