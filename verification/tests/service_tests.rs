use conduit::chat::ChatMessage;
use conduit::events::{AgentMode, AgentType};
use conduit::service::{
    CreateSessionParams, ModelRegistry, ServiceError, SessionService, UpdateSessionParams,
};
use conduit::webapi::{
    map_service_error, parse_agent_mode, parse_agent_type, select_events_window,
    session_events_response, CreateRepositoryRequest, CreateWorkspaceRequest, SessionEventsQuery,
    WebError,
};

fn create_params(agent: AgentType, model: Option<&str>) -> CreateSessionParams {
    CreateSessionParams {
        workspace_id: None,
        agent_type: agent,
        model: model.map(String::from),
    }
}

#[test]
fn create_session_uses_default_model() {
    let mut svc = SessionService::new();
    let tab = svc.create_session(create_params(AgentType::Sonnet, None)).expect("created");
    assert_eq!(tab.model.as_deref(), Some("sonnet"));
    assert_eq!(tab.tab_index, 0);
    let tab2 = svc.create_session(create_params(AgentType::Codex, None)).expect("created");
    assert_eq!(tab2.tab_index, 1);
    assert_eq!(tab2.model.as_deref(), Some("gpt-5-codex"));
}

#[test]
fn create_session_rejects_invalid_model() {
    let mut svc = SessionService::new();
    let r = svc.create_session(create_params(AgentType::Sonnet, Some("gpt-5")));
    assert!(matches!(r, Err(ServiceError::InvalidInput(_))));
    assert_eq!(svc.list_sessions().len(), 0);
}

#[test]
fn get_session_reports_unknown_id() {
    let mut svc = SessionService::new();
    let r = svc.get_session("nope");
    match r {
        Err(ServiceError::NotFound(m)) => assert_eq!(m, "Session nope not found"),
        _ => panic!("expected not-found"),
    }
}

#[test]
fn update_is_rejected_once_a_run_has_begun() {
    let mut svc = SessionService::new();
    let tab = svc.create_session(create_params(AgentType::Sonnet, None)).expect("created");
    let id = tab.id.0.clone();
    // Before any run, settings may change.
    let updated = svc
        .update_session(
            &id,
            UpdateSessionParams { model: Some(String::from("opus")), agent_type: None, agent_mode: None },
        )
        .expect("model change before any run");
    assert_eq!(updated.model.as_deref(), Some("opus"));
    // Once the backend session id is recorded, any settings change is
    // rejected and nothing changes.
    svc.set_agent_session_id(&id, "backend-1").expect("correlated");
    let r = svc.update_session(
        &id,
        UpdateSessionParams { model: Some(String::from("haiku")), agent_type: None, agent_mode: None },
    );
    assert!(matches!(r, Err(ServiceError::InvalidInput(_))));
    let after = svc.get_session(&id).expect("still there");
    assert_eq!(after.model.as_deref(), Some("opus"));
    assert_eq!(after.agent_session_id.as_deref(), Some("backend-1"));
    // An empty update is still accepted.
    assert!(svc
        .update_session(&id, UpdateSessionParams { model: None, agent_type: None, agent_mode: None })
        .is_ok());
}

#[test]
fn update_changes_only_the_named_fields() {
    let mut svc = SessionService::new();
    let tab = svc
        .create_session(CreateSessionParams {
            workspace_id: Some(String::from("ws-9")),
            agent_type: AgentType::Sonnet,
            model: None,
        })
        .expect("created");
    let id = tab.id.0.clone();
    let updated = svc
        .update_session(
            &id,
            UpdateSessionParams { model: None, agent_type: None, agent_mode: Some(AgentMode::Plan) },
        )
        .expect("mode set");
    assert_eq!(updated.agent_mode.as_deref(), Some("plan"));
    assert_eq!(updated.model.as_deref(), Some("sonnet"));
    assert_eq!(updated.workspace_id.as_deref(), Some("ws-9"));
    assert_eq!(updated.tab_index, tab.tab_index);
    assert_eq!(updated.created_at, tab.created_at);
}

#[test]
fn set_agent_session_id_reports_unknown_ids() {
    let mut svc = SessionService::new();
    assert!(matches!(
        svc.set_agent_session_id("missing", "b-1"),
        Err(ServiceError::NotFound(_))
    ));
}

#[test]
fn update_rejects_mode_for_non_sonnet() {
    let mut svc = SessionService::new();
    let tab = svc.create_session(create_params(AgentType::Codex, None)).expect("created");
    let id = tab.id.0.clone();
    let r = svc.update_session(
        &id,
        UpdateSessionParams { model: None, agent_type: None, agent_mode: Some(AgentMode::Plan) },
    );
    assert!(matches!(r, Err(ServiceError::InvalidInput(_))));
}

#[test]
fn update_unknown_session_is_not_found() {
    let mut svc = SessionService::new();
    let r = svc.update_session(
        "missing",
        UpdateSessionParams { model: None, agent_type: None, agent_mode: None },
    );
    assert!(matches!(r, Err(ServiceError::NotFound(_))));
}

#[test]
fn agent_type_change_falls_back_to_default_model() {
    let mut svc = SessionService::new();
    let tab = svc.create_session(create_params(AgentType::Sonnet, None)).expect("created");
    let id = tab.id.0.clone();
    let updated = svc
        .update_session(
            &id,
            UpdateSessionParams { model: None, agent_type: Some(AgentType::Codex), agent_mode: None },
        )
        .expect("updated");
    assert_eq!(updated.agent_type, AgentType::Codex);
    assert_eq!(updated.model.as_deref(), Some("gpt-5-codex"));
}

#[test]
fn close_session_removes_the_record() {
    let mut svc = SessionService::new();
    let tab = svc.create_session(create_params(AgentType::Sonnet, None)).expect("created");
    let id = tab.id.0.clone();
    assert_eq!(svc.list_sessions().len(), 1);
    svc.close_session(&id).expect("closed");
    assert_eq!(svc.list_sessions().len(), 0);
    // Closing again is not an error.
    svc.close_session(&id).expect("idempotent");
}

#[test]
fn model_registry_validates_per_backend() {
    assert!(ModelRegistry::find_model(AgentType::Sonnet, "opus").is_some());
    assert!(ModelRegistry::find_model(AgentType::Sonnet, "gpt-5").is_none());
    assert!(ModelRegistry::find_model(AgentType::Codex, "gpt-5").is_some());
    assert_eq!(ModelRegistry::default_model_for(AgentType::Gemini), "gemini-2.5-pro");
}

#[test]
fn service_errors_map_onto_web_errors() {
    assert!(matches!(
        map_service_error(ServiceError::InvalidInput(String::from("x"))),
        WebError::BadRequest(m) if m == "x"
    ));
    assert!(matches!(
        map_service_error(ServiceError::NotFound(String::from("y"))),
        WebError::NotFound(m) if m == "y"
    ));
    assert!(matches!(
        map_service_error(ServiceError::Internal(String::from("z"))),
        WebError::Internal(m) if m == "z"
    ));
}

#[test]
fn agent_type_parses_case_insensitively() {
    assert_eq!(parse_agent_type("Sonnet").unwrap(), AgentType::Sonnet);
    assert_eq!(parse_agent_type("CODEX").unwrap(), AgentType::Codex);
    assert_eq!(parse_agent_type("gemini").unwrap(), AgentType::Gemini);
    assert!(matches!(parse_agent_type("gpt"), Err(WebError::BadRequest(_))));
}

#[test]
fn agent_mode_parses_case_insensitively() {
    assert_eq!(parse_agent_mode("Build").unwrap(), AgentMode::Build);
    assert_eq!(parse_agent_mode("PLAN").unwrap(), AgentMode::Plan);
    assert!(matches!(parse_agent_mode("review"), Err(WebError::BadRequest(_))));
}

#[test]
fn workspace_request_validation_checks_in_order() {
    let mut req = CreateWorkspaceRequest {
        name: String::new(),
        branch: String::new(),
        path: String::new(),
        is_default: false,
    };
    assert!(matches!(req.validate(), Err(WebError::BadRequest(m)) if m == "Workspace name is required"));
    req.name = String::from("w");
    assert!(matches!(req.validate(), Err(WebError::BadRequest(m)) if m == "Branch is required"));
    req.branch = String::from("main");
    assert!(matches!(req.validate(), Err(WebError::BadRequest(m)) if m == "Path is required"));
    req.path = String::from("/tmp/w");
    assert!(req.validate().is_ok());
}

#[test]
fn events_window_supports_offset_and_tail() {
    let q = |limit: Option<usize>, offset: Option<usize>, tail: bool| SessionEventsQuery {
        limit,
        offset,
        tail,
    };
    // No query: everything.
    assert_eq!(select_events_window(10, &q(None, None, false)), (0, 10));
    // Window starting at an offset.
    assert_eq!(select_events_window(10, &q(Some(3), Some(2), false)), (2, 5));
    // Offset past the end.
    assert_eq!(select_events_window(10, &q(Some(3), Some(50), false)), (10, 10));
    // Tail: the most recent `limit` items.
    assert_eq!(select_events_window(10, &q(Some(4), None, true)), (6, 10));
    // Limit larger than the total.
    assert_eq!(select_events_window(3, &q(Some(9), None, true)), (0, 3));
}

#[test]
fn events_response_converts_the_window() {
    let messages = vec![
        ChatMessage::user(String::from("one")),
        ChatMessage::assistant(String::from("two")),
        ChatMessage::error(String::from("three")),
    ];
    let query = SessionEventsQuery { limit: Some(2), offset: None, tail: true };
    let resp = session_events_response(&messages, &query);
    assert_eq!(resp.total, 3);
    assert_eq!(resp.offset, 1);
    assert_eq!(resp.limit, 2);
    assert_eq!(resp.events.len(), 2);
    assert_eq!(resp.events[0].role, "assistant");
    assert_eq!(resp.events[0].content, "two");
    assert_eq!(resp.events[1].role, "error");
    assert_eq!(resp.events[1].content, "three");
}

#[test]
fn workspace_session_is_reused_or_created() {
    let mut svc = SessionService::new();
    // No session and no workspace: a typed not-found error, no state change.
    let missing = svc.get_or_create_session_for_workspace("ws-1", false, AgentType::Sonnet);
    assert!(matches!(missing, Err(ServiceError::NotFound(_))));
    assert_eq!(svc.list_sessions().len(), 0);

    // Workspace exists: a session is created with the default backend.
    let created = svc
        .get_or_create_session_for_workspace("ws-1", true, AgentType::Codex)
        .expect("created");
    assert_eq!(created.workspace_id.as_deref(), Some("ws-1"));
    assert_eq!(created.agent_type, AgentType::Codex);
    assert_eq!(created.model.as_deref(), Some("gpt-5-codex"));
    assert_eq!(svc.list_sessions().len(), 1);

    // A second request reuses the bound session instead of creating one.
    let reused = svc
        .get_or_create_session_for_workspace("ws-1", true, AgentType::Sonnet)
        .expect("reused");
    assert_eq!(reused.id.0, created.id.0);
    assert_eq!(svc.list_sessions().len(), 1);
}

#[test]
fn repository_request_requires_name_and_source() {
    let mut req = CreateRepositoryRequest {
        name: String::new(),
        base_path: None,
        repository_url: None,
    };
    assert!(matches!(req.validate(), Err(WebError::BadRequest(m)) if m == "Repository name is required"));
    req.name = String::from("demo");
    assert!(matches!(
        req.validate(),
        Err(WebError::BadRequest(m)) if m == "Either base_path or repository_url is required"
    ));
    req.base_path = Some(String::from("/srv/demo"));
    assert!(req.validate().is_ok());
}
