//! The session mutation service: create, get, update, close and list over an
//! owned collection of session records, with model validation and the
//! single-in-flight-turn rule for settings changes.

use vstd::prelude::*;
use crate::events::{AgentMode, AgentType};
use crate::session::SessionId;
use crate::text::owned;

verus! {

/// A catalog entry for a selectable model.
#[derive(Debug)]
pub struct ModelInfo {
    pub id: String,
    pub display_name: String,
}

/// Whether a model identifier is valid for a backend.
pub open spec fn spec_valid_model(agent: AgentType, id: Seq<char>) -> bool {
    match agent {
        AgentType::Sonnet => id == "opus"@ || id == "sonnet"@ || id == "haiku"@,
        AgentType::Codex => id == "gpt-5-codex"@ || id == "gpt-5"@,
        AgentType::Gemini => id == "gemini-2.5-pro"@ || id == "gemini-2.5-flash"@,
    }
}

/// The default model of each backend.
pub open spec fn spec_default_model(agent: AgentType) -> Seq<char> {
    match agent {
        AgentType::Sonnet => "sonnet"@,
        AgentType::Codex => "gpt-5-codex"@,
        AgentType::Gemini => "gemini-2.5-pro"@,
    }
}

/// The closed catalog of models each backend accepts.
pub struct ModelRegistry;

impl ModelRegistry {
    /// Look a model up by backend and identifier.
    pub fn find_model(agent_type: AgentType, model_id: &str) -> (r: Option<ModelInfo>)
        ensures
            r is Some <==> spec_valid_model(agent_type, model_id@),
            r matches Some(info) ==> info.id@ == model_id@,
    {
        let id_matches: bool = match agent_type {
            AgentType::Sonnet => str_eq(model_id, "opus") || str_eq(model_id, "sonnet") || str_eq(
                model_id,
                "haiku",
            ),
            AgentType::Codex => str_eq(model_id, "gpt-5-codex") || str_eq(model_id, "gpt-5"),
            AgentType::Gemini => str_eq(model_id, "gemini-2.5-pro") || str_eq(
                model_id,
                "gemini-2.5-flash",
            ),
        };
        if id_matches {
            Some(ModelInfo { id: owned(model_id), display_name: owned(model_id) })
        } else {
            None
        }
    }

    /// The default model for a backend; always a valid model of it.
    pub fn default_model_for(agent_type: AgentType) -> (r: String)
        ensures
            r@ == spec_default_model(agent_type),
            spec_valid_model(agent_type, r@),
    {
        match agent_type {
            AgentType::Sonnet => owned("sonnet"),
            AgentType::Codex => owned("gpt-5-codex"),
            AgentType::Gemini => owned("gemini-2.5-pro"),
        }
    }
}

/// Character-for-character string equality.
pub fn str_eq(a: &str, b: &str) -> (r: bool)
    ensures
        r == (a@ == b@),
{
    let n = a.unicode_len();
    let m = b.unicode_len();
    if n != m {
        proof {
            assert(a@ != b@);
        }
        return false;
    }
    let mut i: usize = 0;
    while i < n
        invariant
            0 <= i <= n,
            n == a@.len(),
            n == b@.len(),
            forall|j: int| 0 <= j < i ==> a@[j] == b@[j],
        decreases n - i,
    {
        if a.get_char(i) != b.get_char(i) {
            return false;
        }
        i = i + 1;
    }
    proof {
        assert(a@ =~= b@);
    }
    true
}

/// One persisted session record, as the mutation service sees it.
#[derive(Debug)]
pub struct SessionTab {
    pub id: SessionId,
    pub tab_index: i32,
    pub workspace_id: Option<String>,
    pub agent_type: AgentType,
    pub agent_mode: Option<String>,
    /// Backend-native session id; set once a run has begun.
    pub agent_session_id: Option<String>,
    pub model: Option<String>,
    pub title: Option<String>,
    pub created_at: i64,
}

impl SessionTab {
    /// A fresh record with a new identity, created now.
    pub fn new(
        tab_index: i32,
        agent_type: AgentType,
        workspace_id: Option<String>,
        agent_session_id: Option<String>,
        model: Option<String>,
        title: Option<String>,
    ) -> (r: SessionTab)
        ensures
            r.tab_index == tab_index,
            r.agent_type == agent_type,
            r.workspace_id == workspace_id,
            r.agent_session_id == agent_session_id,
            r.model == model,
            r.title == title,
            r.agent_mode is None,
            r.id.0@.len() == 36,
    {
        SessionTab {
            id: SessionId::new(),
            tab_index,
            workspace_id,
            agent_type,
            agent_mode: None,
            agent_session_id,
            model,
            title,
            created_at: crate::session::now_millis(),
        }
    }
}

/// Typed failures of the mutation service.
#[derive(Debug)]
pub enum ServiceError {
    InvalidInput(String),
    NotFound(String),
    Internal(String),
}

/// Parameters for creating a session.
#[derive(Debug)]
pub struct CreateSessionParams {
    pub workspace_id: Option<String>,
    pub agent_type: AgentType,
    pub model: Option<String>,
}

/// Parameters for updating a session; absent fields stay unchanged.
#[derive(Debug)]
pub struct UpdateSessionParams {
    pub model: Option<String>,
    pub agent_type: Option<AgentType>,
    pub agent_mode: Option<AgentMode>,
}

/// The session mutation service over an owned, insertion-ordered store.
pub struct SessionService {
    sessions: Vec<SessionTab>,
}

impl SessionService {
    pub closed spec fn spec_sessions(&self) -> Seq<SessionTab> {
        self.sessions@
    }

    pub fn new() -> (r: SessionService)
        ensures
            r.spec_sessions().len() == 0,
    {
        SessionService { sessions: Vec::new() }
    }

    /// First index holding the given session id, if any.
    fn find_index(&self, id: &str) -> (r: Option<usize>)
        ensures
            r matches Some(i) ==> first_with_id(self.spec_sessions(), id@, i as int),
            r is None ==> forall|j: int|
                0 <= j < self.spec_sessions().len() ==> (#[trigger] self.spec_sessions()[
                    j
                ]).id.0@ != id@,
    {
        let n = self.sessions.len();
        let mut i: usize = 0;
        while i < n
            invariant
                0 <= i <= n,
                n == self.sessions@.len(),
                forall|j: int| 0 <= j < i ==> (#[trigger] self.sessions@[j]).id.0@ != id@,
            decreases n - i,
        {
            if str_eq(self.sessions[i].id.as_str(), id) {
                return Some(i);
            }
            i = i + 1;
        }
        None
    }

    /// A copy of the record at `i`, field for field.
    fn clone_tab(&self, i: usize) -> (r: SessionTab)
        requires
            i < self.spec_sessions().len(),
        ensures
            tab_like(r, self.spec_sessions()[i as int]),
    {
        let t = &self.sessions[i];
        SessionTab {
            id: SessionId::from_string(owned(t.id.as_str())),
            tab_index: t.tab_index,
            workspace_id: clone_opt_string(&t.workspace_id),
            agent_type: t.agent_type,
            agent_mode: clone_opt_string(&t.agent_mode),
            agent_session_id: clone_opt_string(&t.agent_session_id),
            model: clone_opt_string(&t.model),
            title: clone_opt_string(&t.title),
            created_at: t.created_at,
        }
    }

    /// List all sessions, in insertion order, each with its model filled in
    /// from the backend default when missing (and persisted so).
    pub fn list_sessions(&mut self) -> (r: Vec<SessionTab>)
        ensures
            final(self).spec_sessions().len() == old(self).spec_sessions().len(),
            r@.len() == old(self).spec_sessions().len(),
            forall|i: int|
                0 <= i < r@.len() ==> #[trigger] tab_like_modeled(
                    r@[i],
                    old(self).spec_sessions()[i],
                ),
            forall|i: int|
                0 <= i < r@.len() ==> #[trigger] tab_like_modeled(
                    final(self).spec_sessions()[i],
                    old(self).spec_sessions()[i],
                ),
    {
        let n = self.sessions.len();
        let mut out: Vec<SessionTab> = Vec::new();
        let mut i: usize = 0;
        while i < n
            invariant
                0 <= i <= n,
                n == self.sessions@.len(),
                self.sessions@.len() == old(self).spec_sessions().len(),
                out@.len() == i,
                forall|j: int| i <= j < n ==> self.sessions@[j] == old(self).spec_sessions()[j],
                forall|j: int|
                    0 <= j < i ==> #[trigger] tab_like_modeled(
                        out@[j],
                        old(self).spec_sessions()[j],
                    ),
                forall|j: int|
                    0 <= j < i ==> #[trigger] tab_like_modeled(
                        self.sessions@[j],
                        old(self).spec_sessions()[j],
                    ),
            decreases n - i,
        {
            Self::ensure_model(&mut self.sessions[i]);
            out.push(self.clone_tab(i));
            i = i + 1;
        }
        out
    }

    /// Fill a missing model in from the backend's default; a present model
    /// is kept.
    pub fn ensure_model(tab: &mut SessionTab)
        ensures
            tab_like_modeled(*final(tab), *old(tab)),
    {
        if tab.model.is_none() {
            tab.model = Some(ModelRegistry::default_model_for(tab.agent_type));
        }
    }

    /// Fetch one session by id, with its model filled in. Unknown ids get a
    /// typed not-found error.
    pub fn get_session(&mut self, id: &str) -> (r: Result<SessionTab, ServiceError>)
        ensures
            r is Ok <==> exists|j: int|
                0 <= j < old(self).spec_sessions().len() && (#[trigger] old(self).spec_sessions()[
                    j
                ]).id.0@ == id@,
            r matches Ok(tab) ==> tab.id.0@ == id@ && tab.model is Some,
            final(self).spec_sessions().len() == old(self).spec_sessions().len(),
            forall|j: int|
                first_with_id(old(self).spec_sessions(), id@, j) ==> {
                    &&& r is Ok
                    &&& forall|i: int|
                        0 <= i < old(self).spec_sessions().len() && i != j ==> final(self).spec_sessions()[i] == old(self).spec_sessions()[i]
                    &&& tab_like_modeled(
                        final(self).spec_sessions()[j],
                        old(self).spec_sessions()[j],
                    )
                    &&& r matches Ok(tab) ==> tab_like(tab, final(self).spec_sessions()[j])
                },
            r matches Err(e) ==> e is NotFound,
            r is Err ==> final(self).spec_sessions() == old(self).spec_sessions(),
    {
        match self.find_index(id) {
            Some(i) => {
                Self::ensure_model(&mut self.sessions[i]);
                let tab = self.clone_tab(i);
                proof {
                    lemma_first_with_id_unique(old(self).spec_sessions(), id@, i as int);
                }
                Ok(tab)
            },
            None => Err(ServiceError::NotFound(not_found_message(id))),
        }
    }

    /// Create a session. A requested model must be valid for the backend or
    /// the request is rejected with a typed invalid-input error and no state
    /// change; without one the backend's default is used. The new record
    /// takes the next free tab index and is appended.
    pub fn create_session(&mut self, params: CreateSessionParams) -> (r: Result<
        SessionTab,
        ServiceError,
    >)
        ensures
            r is Err <==> (params.model matches Some(m) && !spec_valid_model(
                params.agent_type,
                m@,
            )),
            r matches Err(e) ==> e is InvalidInput,
            r is Err ==> final(self).spec_sessions() == old(self).spec_sessions(),
            r matches Ok(tab) ==> {
                &&& final(self).spec_sessions().len() == old(self).spec_sessions().len() + 1
                &&& final(self).spec_sessions().take(old(self).spec_sessions().len() as int)
                    == old(self).spec_sessions()
                &&& final(self).spec_sessions().last().agent_type == params.agent_type
                &&& final(self).spec_sessions().last().model is Some
                &&& (params.model matches Some(m) ==> final(self).spec_sessions().last().model->0@ == m@)
                &&& (params.model is None ==> final(self).spec_sessions().last().model->0@
                    == spec_default_model(params.agent_type))
                &&& final(self).spec_sessions().last().tab_index == spec_next_tab_index(
                    old(self).spec_sessions(),
                )
                &&& final(self).spec_sessions().last().agent_session_id is None
                &&& final(self).spec_sessions().last().agent_mode is None
                &&& final(self).spec_sessions().last().title is None
                &&& opt_string_like(
                    final(self).spec_sessions().last().workspace_id,
                    params.workspace_id,
                )
                &&& tab_like(tab, final(self).spec_sessions().last())
            },
    {
        let model: Option<String> = match &params.model {
            Some(model_id) => {
                if ModelRegistry::find_model(params.agent_type, model_id.as_str()).is_none() {
                    let mut m = String::from_str("Invalid model '");
                    m.append(model_id.as_str());
                    m.append("' for agent type ");
                    m.append(params.agent_type.as_str());
                    return Err(ServiceError::InvalidInput(m));
                }
                Some(owned(model_id.as_str()))
            },
            None => Some(ModelRegistry::default_model_for(params.agent_type)),
        };
        let next_index = self.next_tab_index();
        let workspace_id = clone_opt_string(&params.workspace_id);
        let session = SessionTab::new(
            next_index,
            params.agent_type,
            workspace_id,
            None,
            model,
            None,
        );
        let n = self.sessions.len();
        self.sessions.push(session);
        let tab = self.clone_tab(n);
        proof {
            assert(final(self).spec_sessions().take(old(self).spec_sessions().len() as int)
                =~= old(self).spec_sessions());
        }
        Ok(tab)
    }

    /// One more than the highest tab index in use (0 when empty), saturating
    /// at the type's maximum.
    fn next_tab_index(&self) -> (r: i32)
        ensures
            r == spec_next_tab_index(self.spec_sessions()),
    {
        let n = self.sessions.len();
        let mut max: i32 = -1;
        let mut i: usize = 0;
        proof {
            assert(self.sessions@.take(0) =~= Seq::<SessionTab>::empty());
        }
        while i < n
            invariant
                0 <= i <= n,
                n == self.sessions@.len(),
                max == spec_max_tab_index(self.sessions@.take(i as int)),
            decreases n - i,
        {
            proof {
                assert(self.sessions@.take(i + 1).drop_last() =~= self.sessions@.take(i as int));
                assert(self.sessions@.take(i + 1).last() == self.sessions@[i as int]);
            }
            if self.sessions[i].tab_index > max {
                max = self.sessions[i].tab_index;
            }
            i = i + 1;
        }
        proof {
            assert(self.sessions@.take(n as int) =~= self.sessions@);
        }
        if max < i32::MAX {
            max + 1
        } else {
            max
        }
    }

    /// Update a session's settings. Settings are immutable once a run has
    /// begun: while the backend session id is set, any request that names a
    /// model, backend or mode is rejected with a typed invalid-input error
    /// and no state change. A mode is accepted only for the Sonnet backend;
    /// a named model must be valid for the (possibly updated) backend; a
    /// backend change without a model falls back to the new backend's
    /// default model, and otherwise the model is kept. On acceptance exactly
    /// the named settings of the addressed record change and the updated
    /// record is persisted and returned. Unknown ids get a typed not-found
    /// error.
    pub fn update_session(&mut self, id: &str, params: UpdateSessionParams) -> (r: Result<
        SessionTab,
        ServiceError,
    >)
        ensures
            (forall|j: int|
                0 <= j < old(self).spec_sessions().len() ==> (#[trigger] old(self).spec_sessions()[j]).id.0@ != id@) ==> r matches Err(ServiceError::NotFound(_)),
            forall|j: int|
                first_with_id(old(self).spec_sessions(), id@, j) ==> {
                    &&& (r is Ok <==> spec_update_accepted(old(self).spec_sessions()[j], params))
                    &&& r matches Err(e) ==> e is InvalidInput
                    &&& r is Ok ==> ({
                        &&& final(self).spec_sessions().len() == old(self).spec_sessions().len()
                        &&& forall|i: int|
                            0 <= i < old(self).spec_sessions().len() && i != j ==> final(self).spec_sessions()[i] == old(self).spec_sessions()[i]
                        &&& spec_updated_tab(
                            old(self).spec_sessions()[j],
                            params,
                            final(self).spec_sessions()[j],
                        )
                    })
                    &&& r matches Ok(tab) ==> tab_like(tab, final(self).spec_sessions()[j])
                },
            r is Err ==> final(self).spec_sessions() == old(self).spec_sessions(),
    {
        let idx = match self.find_index(id) {
            Some(i) => i,
            None => {
                return Err(ServiceError::NotFound(not_found_message(id)));
            },
        };
        proof {
            lemma_first_with_id_unique(old(self).spec_sessions(), id@, idx as int);
        }
        if self.sessions[idx].agent_session_id.is_some() && (params.model.is_some()
            || params.agent_type.is_some() || params.agent_mode.is_some()) {
            return Err(
                ServiceError::InvalidInput(
                    owned("Cannot change session settings while a run is active"),
                ),
            );
        }
        let old_agent_type = self.sessions[idx].agent_type;
        let new_agent_type = match params.agent_type {
            Some(at) => at,
            None => old_agent_type,
        };
        let agent_type_changed = !agent_type_eq(new_agent_type, old_agent_type);
        let new_mode: Option<String> = match params.agent_mode {
            Some(mode) => {
                if !agent_type_eq(new_agent_type, AgentType::Sonnet) {
                    return Err(
                        ServiceError::InvalidInput(
                            owned("Agent mode is only supported for Sonnet sessions"),
                        ),
                    );
                }
                Some(owned(mode.as_str()))
            },
            None => clone_opt_string(&self.sessions[idx].agent_mode),
        };
        let new_model: Option<String> = match &params.model {
            Some(model_id) => {
                if ModelRegistry::find_model(new_agent_type, model_id.as_str()).is_none() {
                    let mut m = String::from_str("Invalid model '");
                    m.append(model_id.as_str());
                    m.append("' for agent type ");
                    m.append(new_agent_type.as_str());
                    return Err(ServiceError::InvalidInput(m));
                }
                Some(owned(model_id.as_str()))
            },
            None => {
                if agent_type_changed {
                    Some(ModelRegistry::default_model_for(new_agent_type))
                } else {
                    clone_opt_string(&self.sessions[idx].model)
                }
            },
        };
        let updated = SessionTab {
            id: SessionId::from_string(owned(id)),
            tab_index: self.sessions[idx].tab_index,
            workspace_id: clone_opt_string(&self.sessions[idx].workspace_id),
            agent_type: new_agent_type,
            agent_mode: new_mode,
            agent_session_id: clone_opt_string(&self.sessions[idx].agent_session_id),
            model: new_model,
            title: clone_opt_string(&self.sessions[idx].title),
            created_at: self.sessions[idx].created_at,
        };
        self.sessions.set(idx, updated);
        let tab = self.clone_tab(idx);
        Ok(tab)
    }

    /// First index of a session bound to the given workspace, if any.
    fn find_by_workspace(&self, workspace_id: &str) -> (r: Option<usize>)
        ensures
            r matches Some(i) ==> first_with_workspace(self.spec_sessions(), workspace_id@, i as int),
            r is None ==> forall|j: int|
                0 <= j < self.spec_sessions().len() ==> !((#[trigger] self.spec_sessions()[
                    j
                ]).workspace_id matches Some(w) && w@ == workspace_id@),
    {
        let n = self.sessions.len();
        let mut i: usize = 0;
        while i < n
            invariant
                0 <= i <= n,
                n == self.sessions@.len(),
                forall|j: int|
                    0 <= j < i ==> !((#[trigger] self.sessions@[j]).workspace_id matches Some(w)
                        && w@ == workspace_id@),
            decreases n - i,
        {
            match &self.sessions[i].workspace_id {
                Some(w) => {
                    if str_eq(w.as_str(), workspace_id) {
                        return Some(i);
                    }
                },
                None => {},
            }
            i = i + 1;
        }
        None
    }

    /// Return the session bound to a workspace, with its model filled in, or
    /// create one with the default backend when none exists yet. Whether the
    /// workspace itself exists is an outside lookup whose outcome the caller
    /// passes in: when no session exists and the workspace does not either,
    /// the request gets a typed not-found error and nothing changes.
    pub fn get_or_create_session_for_workspace(
        &mut self,
        workspace_id: &str,
        workspace_exists: bool,
        default_agent: AgentType,
    ) -> (r: Result<SessionTab, ServiceError>)
        ensures
            r matches Ok(tab) ==> (tab.workspace_id matches Some(w) && w@ == workspace_id@),
            r matches Ok(tab) ==> tab.model is Some,
            r matches Err(e) ==> e is NotFound,
            r is Err ==> !workspace_exists && final(self).spec_sessions() == old(self).spec_sessions(),
            forall|j: int|
                first_with_workspace(old(self).spec_sessions(), workspace_id@, j) ==> {
                    &&& r is Ok
                    &&& final(self).spec_sessions().len() == old(self).spec_sessions().len()
                    &&& forall|i: int|
                        0 <= i < old(self).spec_sessions().len() && i != j ==> final(self).spec_sessions()[i] == old(self).spec_sessions()[i]
                    &&& tab_like_modeled(
                        final(self).spec_sessions()[j],
                        old(self).spec_sessions()[j],
                    )
                    &&& r matches Ok(tab) ==> tab_like(tab, final(self).spec_sessions()[j])
                },
            ((forall|j: int|
                0 <= j < old(self).spec_sessions().len() ==> !((#[trigger] old(self).spec_sessions()[j]).workspace_id matches Some(w) && w@ == workspace_id@)))
                ==> {
                &&& (r is Ok <==> workspace_exists)
                &&& workspace_exists ==> ({
                    &&& final(self).spec_sessions().len() == old(self).spec_sessions().len() + 1
                    &&& final(self).spec_sessions().take(old(self).spec_sessions().len() as int)
                        == old(self).spec_sessions()
                    &&& final(self).spec_sessions().last().agent_type == default_agent
                    &&& final(self).spec_sessions().last().model->0@ == spec_default_model(
                        default_agent,
                    )
                    &&& final(self).spec_sessions().last().tab_index == spec_next_tab_index(
                        old(self).spec_sessions(),
                    )
                    &&& final(self).spec_sessions().last().agent_session_id is None
                    &&& final(self).spec_sessions().last().agent_mode is None
                    &&& final(self).spec_sessions().last().title is None
                    &&& r matches Ok(tab) ==> tab_like(tab, final(self).spec_sessions().last())
                })
            },
    {
        match self.find_by_workspace(workspace_id) {
            Some(i) => {
                proof {
                    lemma_first_with_workspace_unique(
                        old(self).spec_sessions(),
                        workspace_id@,
                        i as int,
                    );
                }
                Self::ensure_model(&mut self.sessions[i]);
                let tab = self.clone_tab(i);
                Ok(tab)
            },
            None => {
                if !workspace_exists {
                    let mut m = String::from_str("Workspace ");
                    m.append(workspace_id);
                    m.append(" not found");
                    return Err(ServiceError::NotFound(m));
                }
                let next_index = self.next_tab_index();
                let session = SessionTab::new(
                    next_index,
                    default_agent,
                    Some(owned(workspace_id)),
                    None,
                    Some(ModelRegistry::default_model_for(default_agent)),
                    None,
                );
                let n = self.sessions.len();
                self.sessions.push(session);
                let tab = self.clone_tab(n);
                proof {
                    assert(final(self).spec_sessions().take(old(self).spec_sessions().len() as int)
                        =~= old(self).spec_sessions());
                }
                Ok(tab)
            },
        }
    }

    /// Record the backend-native session identifier reported by the
    /// backend's session-init event, correlating the record for later
    /// resume: only that field of the addressed record changes. Once it is
    /// set, `update_session` rejects settings changes. Unknown ids get a
    /// typed not-found error.
    pub fn set_agent_session_id(&mut self, id: &str, backend_session_id: &str) -> (r: Result<
        (),
        ServiceError,
    >)
        ensures
            (forall|j: int|
                0 <= j < old(self).spec_sessions().len() ==> (#[trigger] old(self).spec_sessions()[j]).id.0@ != id@) ==> r matches Err(ServiceError::NotFound(_)),
            r is Err ==> final(self).spec_sessions() == old(self).spec_sessions(),
            forall|j: int|
                first_with_id(old(self).spec_sessions(), id@, j) ==> {
                    &&& r is Ok
                    &&& final(self).spec_sessions().len() == old(self).spec_sessions().len()
                    &&& forall|i: int|
                        0 <= i < old(self).spec_sessions().len() && i != j ==> final(self).spec_sessions()[i] == old(self).spec_sessions()[i]
                    &&& final(self).spec_sessions()[j].agent_session_id matches Some(b) && b@
                        == backend_session_id@
                    &&& final(self).spec_sessions()[j].id.0@ == old(self).spec_sessions()[j].id.0@
                    &&& final(self).spec_sessions()[j].tab_index == old(self).spec_sessions()[j].tab_index
                    &&& opt_string_like(
                        final(self).spec_sessions()[j].workspace_id,
                        old(self).spec_sessions()[j].workspace_id,
                    )
                    &&& final(self).spec_sessions()[j].agent_type == old(self).spec_sessions()[j].agent_type
                    &&& opt_string_like(
                        final(self).spec_sessions()[j].agent_mode,
                        old(self).spec_sessions()[j].agent_mode,
                    )
                    &&& opt_string_like(
                        final(self).spec_sessions()[j].model,
                        old(self).spec_sessions()[j].model,
                    )
                    &&& opt_string_like(
                        final(self).spec_sessions()[j].title,
                        old(self).spec_sessions()[j].title,
                    )
                    &&& final(self).spec_sessions()[j].created_at == old(self).spec_sessions()[j].created_at
                },
    {
        let idx = match self.find_index(id) {
            Some(i) => i,
            None => {
                return Err(ServiceError::NotFound(not_found_message(id)));
            },
        };
        proof {
            lemma_first_with_id_unique(old(self).spec_sessions(), id@, idx as int);
        }
        let updated = SessionTab {
            id: SessionId::from_string(owned(self.sessions[idx].id.as_str())),
            tab_index: self.sessions[idx].tab_index,
            workspace_id: clone_opt_string(&self.sessions[idx].workspace_id),
            agent_type: self.sessions[idx].agent_type,
            agent_mode: clone_opt_string(&self.sessions[idx].agent_mode),
            agent_session_id: Some(owned(backend_session_id)),
            model: clone_opt_string(&self.sessions[idx].model),
            title: clone_opt_string(&self.sessions[idx].title),
            created_at: self.sessions[idx].created_at,
        };
        self.sessions.set(idx, updated);
        Ok(())
    }

    /// Close (delete) a session: the record is removed if present; closing
    /// an unknown id is not an error.
    pub fn close_session(&mut self, id: &str) -> (r: Result<(), ServiceError>)
        ensures
            r is Ok,
            forall|j: int|
                first_with_id(old(self).spec_sessions(), id@, j) ==> final(self).spec_sessions()
                    == old(self).spec_sessions().remove(j),
            (forall|j: int|
                0 <= j < old(self).spec_sessions().len() ==> (#[trigger] old(self).spec_sessions()[j]).id.0@ != id@) ==> final(self).spec_sessions() == old(self).spec_sessions(),
    {
        match self.find_index(id) {
            Some(i) => {
                self.sessions.remove(i);
                proof {
                    lemma_first_with_id_unique(old(self).spec_sessions(), id@, i as int);
                }
                Ok(())
            },
            None => Ok(()),
        }
    }
}


/// The first index with a given id is unique: any two indexes that both
/// satisfy `first_with_id` coincide.
pub proof fn lemma_first_with_id_unique(tabs: Seq<SessionTab>, id: Seq<char>, i: int)
    requires
        first_with_id(tabs, id, i),
    ensures
        forall|j: int| first_with_id(tabs, id, j) ==> j == i,
{
    assert forall|j: int| first_with_id(tabs, id, j) implies j == i by {
        if j < i {
            assert(tabs[j].id.0@ != id);
        }
        if i < j {
            assert(tabs[i].id.0@ != id);
        }
    }
}

/// `j` is the first index whose record carries this session id.
pub open spec fn first_with_id(tabs: Seq<SessionTab>, id: Seq<char>, j: int) -> bool {
    &&& 0 <= j < tabs.len()
    &&& tabs[j].id.0@ == id
    &&& forall|k: int| 0 <= k < j ==> (#[trigger] tabs[k]).id.0@ != id
}

/// The first index bound to a given workspace is unique.
pub proof fn lemma_first_with_workspace_unique(tabs: Seq<SessionTab>, ws: Seq<char>, i: int)
    requires
        first_with_workspace(tabs, ws, i),
    ensures
        forall|j: int| first_with_workspace(tabs, ws, j) ==> j == i,
{
    assert forall|j: int| first_with_workspace(tabs, ws, j) implies j == i by {
        if j < i {
            assert(!(tabs[j].workspace_id matches Some(w) && w@ == ws));
        }
        if i < j {
            assert(!(tabs[i].workspace_id matches Some(w) && w@ == ws));
        }
    }
}

/// `j` is the first index whose record is bound to this workspace.
pub open spec fn first_with_workspace(tabs: Seq<SessionTab>, ws: Seq<char>, j: int) -> bool {
    &&& 0 <= j < tabs.len()
    &&& tabs[j].workspace_id matches Some(w) && w@ == ws
    &&& forall|k: int|
        0 <= k < j ==> !((#[trigger] tabs[k]).workspace_id matches Some(w) && w@ == ws)
}

/// Highest tab index in use; -1 when no record exists.
pub open spec fn spec_max_tab_index(tabs: Seq<SessionTab>) -> int
    decreases tabs.len(),
{
    if tabs.len() == 0 {
        -1
    } else {
        let m = spec_max_tab_index(tabs.drop_last());
        if tabs.last().tab_index > m {
            tabs.last().tab_index as int
        } else {
            m
        }
    }
}

/// The index a fresh record takes: one past the highest in use, saturating
/// at the type's maximum.
pub open spec fn spec_next_tab_index(tabs: Seq<SessionTab>) -> int {
    if spec_max_tab_index(tabs) < i32::MAX {
        spec_max_tab_index(tabs) + 1
    } else {
        i32::MAX as int
    }
}

/// Whether an update request is accepted against this stored record:
/// settings are immutable once a run has begun; a mode needs the Sonnet
/// backend; a named model must be valid for the effective backend.
pub open spec fn spec_update_accepted(t: SessionTab, params: UpdateSessionParams) -> bool {
    let new_type = match params.agent_type {
        Some(at) => at,
        None => t.agent_type,
    };
    &&& (t.agent_session_id is Some ==> (params.model is None && params.agent_type is None
        && params.agent_mode is None))
    &&& (params.agent_mode is Some ==> new_type == AgentType::Sonnet)
    &&& (params.model matches Some(m) ==> spec_valid_model(new_type, m@))
}

/// The stored record after an accepted update: exactly the named settings
/// change, everything else is preserved.
pub open spec fn spec_updated_tab(t: SessionTab, params: UpdateSessionParams, u: SessionTab) -> bool {
    let new_type = match params.agent_type {
        Some(at) => at,
        None => t.agent_type,
    };
    &&& u.id.0@ == t.id.0@
    &&& u.tab_index == t.tab_index
    &&& opt_string_like(u.workspace_id, t.workspace_id)
    &&& u.agent_type == new_type
    &&& opt_string_like(u.agent_session_id, t.agent_session_id)
    &&& opt_string_like(u.title, t.title)
    &&& u.created_at == t.created_at
    &&& (params.agent_mode matches Some(mode) ==> ({
        &&& u.agent_mode matches Some(ms) && ms@ == crate::events::spec_mode_label(mode)
    }))
    &&& (params.agent_mode is None ==> opt_string_like(u.agent_mode, t.agent_mode))
    &&& (params.model matches Some(m) ==> ({
        &&& u.model matches Some(um) && um@ == m@
    }))
    &&& (params.model is None && new_type != t.agent_type ==> ({
        &&& u.model matches Some(um) && um@ == spec_default_model(new_type)
    }))
    &&& (params.model is None && new_type == t.agent_type ==> opt_string_like(u.model, t.model))
}

/// Field-for-field record correspondence, up to string views.
pub open spec fn tab_like(a: SessionTab, b: SessionTab) -> bool {
    &&& a.id.0@ == b.id.0@
    &&& a.tab_index == b.tab_index
    &&& opt_string_like(a.workspace_id, b.workspace_id)
    &&& a.agent_type == b.agent_type
    &&& opt_string_like(a.agent_mode, b.agent_mode)
    &&& opt_string_like(a.agent_session_id, b.agent_session_id)
    &&& opt_string_like(a.model, b.model)
    &&& opt_string_like(a.title, b.title)
    &&& a.created_at == b.created_at
}

/// Like `tab_like`, except that a missing model on the right may have been
/// filled in with the backend's default.
pub open spec fn tab_like_modeled(a: SessionTab, b: SessionTab) -> bool {
    &&& a.id.0@ == b.id.0@
    &&& a.tab_index == b.tab_index
    &&& opt_string_like(a.workspace_id, b.workspace_id)
    &&& a.agent_type == b.agent_type
    &&& opt_string_like(a.agent_mode, b.agent_mode)
    &&& opt_string_like(a.agent_session_id, b.agent_session_id)
    &&& a.model is Some
    &&& (b.model matches Some(m) ==> a.model->0@ == m@)
    &&& (b.model is None ==> a.model->0@ == spec_default_model(b.agent_type))
    &&& opt_string_like(a.title, b.title)
    &&& a.created_at == b.created_at
}

pub open spec fn opt_string_like(a: Option<String>, b: Option<String>) -> bool {
    match (a, b) {
        (Some(x), Some(y)) => x@ == y@,
        (None, None) => true,
        _ => false,
    }
}

/// A copy of an optional string, by view.
pub fn clone_opt_string(o: &Option<String>) -> (r: Option<String>)
    ensures
        opt_string_like(r, *o),
{
    match o {
        Some(s) => Some(owned(s.as_str())),
        None => None,
    }
}

fn agent_type_eq(a: AgentType, b: AgentType) -> (r: bool)
    ensures
        r == (a == b),
{
    a == b
}

fn not_found_message(id: &str) -> (r: String)
    ensures
        r@ == "Session "@ + id@ + " not found"@,
{
    let mut m = String::from_str("Session ");
    m.append(id);
    m.append(" not found");
    m
}

} // verus!
