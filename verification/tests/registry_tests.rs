use conduit::events::{AgentEvent, AgentType, TokenUsage};
use conduit::queue::{
    build_queued_submission, queued_to_submission, QueueDelivery, QueuedImage, QueuedMessage,
};
use conduit::registry::{
    clamp_queue_selection, AgentSession, EventDirection, RawEventRecord, TabManager,
};
use conduit::session::SessionId;

fn msg(text: &str) -> QueuedMessage {
    QueuedMessage {
        text: String::from(text),
        mode: conduit::events::AgentMode::Build,
        images: vec![],
    }
}

fn completed() -> AgentEvent {
    AgentEvent::TurnCompleted { usage: TokenUsage { input_tokens: 3, output_tokens: 4, cached_tokens: 5 } }
}

#[test]
fn submit_then_queue_then_dispatch_on_completion() {
    // Create session A (backend = Sonnet); submit "hello" -> processing;
    // submit "world" while processing -> queued; deliver TurnCompleted ->
    // idle, queue cleared, and "world" dispatched as the next turn.
    let mut tabs = TabManager::new(10);
    let idx = tabs.new_tab(AgentType::Sonnet).expect("capacity");
    assert_eq!(idx, 0);

    let started = tabs.submit_to(0, msg("hello")).expect("tab exists");
    assert!(started);
    assert!(tabs.active_session().unwrap().is_processing);

    let started2 = tabs.submit_to(0, msg("world")).expect("tab exists");
    assert!(!started2);
    assert_eq!(tabs.active_session().unwrap().queued_messages.len(), 1);

    let dispatch = tabs.on_agent_event(0, &completed(), QueueDelivery::Concat);
    let sub = dispatch.expect("queued submission dispatched");
    assert_eq!(sub.0, "world");
    assert!(!tabs.active_session().unwrap().is_processing);
    assert_eq!(tabs.active_session().unwrap().queued_messages.len(), 0);
}

#[test]
fn registry_rejects_create_beyond_capacity() {
    let mut tabs = TabManager::new(2);
    assert_eq!(tabs.new_tab(AgentType::Sonnet), Some(0));
    assert_eq!(tabs.new_tab(AgentType::Codex), Some(1));
    assert_eq!(tabs.new_tab(AgentType::Gemini), None);
    assert_eq!(tabs.len(), 2);
    assert!(!tabs.can_add_tab());
}

#[test]
fn processing_follows_turn_lifecycle() {
    let mut s = AgentSession::new(SessionId::from_string(String::from("s1")), AgentType::Sonnet);
    assert!(!s.is_processing);
    s.apply_event(&AgentEvent::TurnStarted);
    assert!(s.is_processing);
    s.apply_event(&AgentEvent::AssistantMessage { text: String::from("hi"), is_final: true });
    assert!(s.is_processing);
    s.apply_event(&completed());
    assert!(!s.is_processing);
    assert_eq!(s.turn_count, 1);

    s.apply_event(&AgentEvent::TurnStarted);
    s.apply_event(&AgentEvent::TurnFailed { message: String::from("boom") });
    assert!(!s.is_processing);
    assert_eq!(s.turn_count, 2);

    s.apply_event(&AgentEvent::TurnStarted);
    s.apply_event(&AgentEvent::Error { message: String::from("warn"), is_fatal: false });
    assert!(s.is_processing);
    s.apply_event(&AgentEvent::Error { message: String::from("dead"), is_fatal: true });
    assert!(!s.is_processing);
    assert_eq!(s.turn_count, 3);
}

#[test]
fn usage_totals_accumulate() {
    let mut s = AgentSession::new(SessionId::from_string(String::from("s1")), AgentType::Codex);
    s.apply_event(&completed());
    s.apply_event(&completed());
    assert_eq!(s.total_usage.input_tokens, 6);
    assert_eq!(s.total_usage.output_tokens, 8);
    assert_eq!(s.total_usage.cached_tokens, 10);
}

#[test]
fn session_init_records_backend_id() {
    let mut s = AgentSession::new(SessionId::from_string(String::from("s1")), AgentType::Sonnet);
    s.apply_event(&AgentEvent::SessionInit { session_id: String::from("backend-77") });
    assert_eq!(s.agent_session_id.as_deref(), Some("backend-77"));
}

#[test]
fn queue_preserves_order_and_collapses_once() {
    let mut s = AgentSession::new(SessionId::from_string(String::from("s1")), AgentType::Sonnet);
    assert!(s.submit_prompt(msg("first")));
    assert!(!s.submit_prompt(msg("a")));
    assert!(!s.submit_prompt(msg("b")));
    assert!(!s.submit_prompt(msg("c")));
    assert_eq!(s.queued_messages.len(), 3);
    // Still processing: nothing to take.
    assert!(s.take_queued_submission(QueueDelivery::Concat).is_none());
    s.apply_event(&completed());
    let sub = s.take_queued_submission(QueueDelivery::Concat).expect("dispatch");
    assert_eq!(sub.0, "a\n\nb\n\nc");
    assert!(s.queued_messages.is_empty());
    // Exactly one dispatch: the queue is now empty.
    assert!(s.take_queued_submission(QueueDelivery::Concat).is_none());
}

#[test]
fn sequenced_delivery_marks_each_item() {
    let msgs = vec![msg(" a "), msg("b")];
    let (text, paths, placeholders) = build_queued_submission(&msgs, QueueDelivery::Sequenced);
    assert_eq!(text, "[Queued 1 of 2]\n\na\n\n[Queued 2 of 2]\n\nb");
    assert!(paths.is_empty());
    assert!(placeholders.is_empty());
}

#[test]
fn single_item_always_concatenates() {
    let msgs = vec![msg("  solo  ")];
    let (text, _, _) = build_queued_submission(&msgs, QueueDelivery::Sequenced);
    assert_eq!(text, "solo");
}

#[test]
fn images_concatenate_in_queue_order() {
    let m1 = QueuedMessage {
        text: String::from("one"),
        mode: conduit::events::AgentMode::Build,
        images: vec![QueuedImage { path: String::from("/p1"), placeholder: String::from("[i1]") }],
    };
    let m2 = QueuedMessage {
        text: String::from("two"),
        mode: conduit::events::AgentMode::Build,
        images: vec![
            QueuedImage { path: String::from("/p2"), placeholder: String::from("[i2]") },
            QueuedImage { path: String::from("/p3"), placeholder: String::from("[i3]") },
        ],
    };
    let (text, paths, placeholders) = build_queued_submission(&vec![m1, m2], QueueDelivery::Concat);
    assert_eq!(text, "one\n\ntwo");
    assert_eq!(paths, vec!["/p1", "/p2", "/p3"]);
    assert_eq!(placeholders, vec!["[i1]", "[i2]", "[i3]"]);
}

#[test]
fn queued_to_submission_copies_everything() {
    let m = QueuedMessage {
        text: String::from("body"),
        mode: conduit::events::AgentMode::Plan,
        images: vec![QueuedImage { path: String::from("/x"), placeholder: String::from("[x]") }],
    };
    let (text, paths, placeholders) = queued_to_submission(&m);
    assert_eq!(text, "body");
    assert_eq!(paths, vec!["/x"]);
    assert_eq!(placeholders, vec!["[x]"]);
}

#[test]
fn clamp_queue_selection_keeps_cursor_in_range() {
    let mut s = AgentSession::new(SessionId::from_string(String::from("s1")), AgentType::Sonnet);
    assert!(s.submit_prompt(msg("go")));
    assert!(!s.submit_prompt(msg("a")));
    assert!(!s.submit_prompt(msg("b")));
    s.queue_selection = Some(9);
    clamp_queue_selection(&mut s);
    assert_eq!(s.queue_selection, Some(1));
    s.queued_messages.clear();
    clamp_queue_selection(&mut s);
    assert_eq!(s.queue_selection, None);
}

#[test]
fn events_for_closed_tabs_are_discarded() {
    let mut tabs = TabManager::new(4);
    tabs.new_tab(AgentType::Sonnet);
    let r = tabs.on_agent_event(7, &completed(), QueueDelivery::Concat);
    assert!(r.is_none());
    assert_eq!(tabs.len(), 1);
}

#[test]
fn interrupt_returns_session_to_idle() {
    let mut s = AgentSession::new(SessionId::from_string(String::from("s1")), AgentType::Sonnet);
    assert!(s.submit_prompt(msg("work")));
    assert!(s.is_processing);
    s.interrupt();
    assert!(!s.is_processing);
    let last = s.transcript.last().expect("notice");
    assert_eq!(last.content, "Interrupted");
}

#[test]
fn close_and_switch_tabs() {
    let mut tabs = TabManager::new(4);
    tabs.new_tab(AgentType::Sonnet);
    tabs.new_tab(AgentType::Codex);
    tabs.new_tab(AgentType::Gemini);
    assert_eq!(tabs.active_index(), 2);
    tabs.switch_to(0);
    assert_eq!(tabs.active_index(), 0);
    tabs.next_tab();
    assert_eq!(tabs.active_index(), 1);
    tabs.prev_tab();
    assert_eq!(tabs.active_index(), 0);
    tabs.close_tab(0);
    assert_eq!(tabs.len(), 2);
    assert!(tabs.active_session().is_some());
}

#[test]
fn streamed_output_is_finalized_on_completion() {
    let mut s = AgentSession::new(SessionId::from_string(String::from("s1")), AgentType::Sonnet);
    s.apply_event(&AgentEvent::TurnStarted);
    s.apply_event(&AgentEvent::AssistantMessage { text: String::from("par"), is_final: false });
    s.apply_event(&AgentEvent::AssistantMessage { text: String::from("tial"), is_final: false });
    let before = s.transcript.len();
    s.apply_event(&completed());
    // The streamed text lands as one assistant item, then the turn summary.
    assert_eq!(s.transcript.len(), before + 2);
    assert_eq!(s.transcript[before].content, "partial");
}

#[test]
fn registry_interrupt_targets_one_tab() {
    let mut tabs = TabManager::new(4);
    tabs.new_tab(AgentType::Sonnet);
    tabs.new_tab(AgentType::Codex);
    tabs.submit_to(0, msg("go")).expect("tab");
    tabs.submit_to(1, msg("go")).expect("tab");
    tabs.interrupt(0);
    // Unknown indexes are ignored.
    tabs.interrupt(9);
    tabs.switch_to(0);
    assert!(!tabs.active_session().unwrap().is_processing);
    tabs.switch_to(1);
    assert!(tabs.active_session().unwrap().is_processing);
}


#[test]
fn successful_edit_tools_record_file_changes() {
    let mut s = AgentSession::new(SessionId::from_string(String::from("s1")), AgentType::Sonnet);
    s.apply_event(&AgentEvent::TurnStarted);
    s.apply_event(&AgentEvent::ToolCompleted {
        tool_id: String::from("Edit"),
        success: true,
        result: Some(String::from("Updated src/main.rs successfully")),
        error: None,
    });
    assert_eq!(s.current_turn_summary.files_changed.len(), 1);
    assert_eq!(s.current_turn_summary.files_changed[0].filename, "src/main.rs");
    assert_eq!(s.current_turn_summary.files_changed[0].additions, 5);
    assert_eq!(s.current_turn_summary.files_changed[0].deletions, 2);
    // A non-edit tool records nothing.
    s.apply_event(&AgentEvent::ToolCompleted {
        tool_id: String::from("Read"),
        success: true,
        result: Some(String::from("src/lib.rs contents")),
        error: None,
    });
    assert_eq!(s.current_turn_summary.files_changed.len(), 1);
    // A failed edit records nothing.
    s.apply_event(&AgentEvent::ToolCompleted {
        tool_id: String::from("Write"),
        success: false,
        result: None,
        error: Some(String::from("denied")),
    });
    assert_eq!(s.current_turn_summary.files_changed.len(), 1);
    // The completed turn's summary item carries the recorded file and the
    // running summary resets.
    s.apply_event(&completed());
    let last = s.transcript.last().expect("summary item");
    let summary = last.summary.as_ref().expect("attached summary");
    assert_eq!(summary.files_changed.len(), 1);
    assert_eq!(summary.files_changed[0].filename, "src/main.rs");
    assert_eq!(s.current_turn_summary.files_changed.len(), 0);
}

#[test]
fn raw_event_log_is_append_only() {
    let mut tabs = TabManager::new(4);
    tabs.new_tab(AgentType::Sonnet);
    tabs.record_raw_event(
        0,
        RawEventRecord {
            direction: EventDirection::Sent,
            event_type: String::from("UserPrompt"),
            payload: String::from("hello"),
            elapsed_ms: 12,
        },
    );
    // Applying events never touches the log.
    tabs.on_agent_event(0, &AgentEvent::TurnStarted, QueueDelivery::Concat);
    tabs.record_raw_event(
        0,
        RawEventRecord {
            direction: EventDirection::Received,
            event_type: String::from("TurnStarted"),
            payload: String::from("TurnStarted"),
            elapsed_ms: 15,
        },
    );
    // Unknown indexes are ignored.
    tabs.record_raw_event(
        9,
        RawEventRecord {
            direction: EventDirection::Received,
            event_type: String::from("TurnStarted"),
            payload: String::new(),
            elapsed_ms: 0,
        },
    );
    let session = tabs.session_at(0).expect("tab");
    assert_eq!(session.raw_events.len(), 2);
    assert_eq!(session.raw_events[0].event_type, "UserPrompt");
    assert_eq!(session.raw_events[0].elapsed_ms, 12);
    assert_eq!(session.raw_events[1].direction, EventDirection::Received);
    assert!(tabs.session_at(1).is_none());
}
