use conduit::filescan::extract_filename;
use conduit::input_box::InputBox;
use conduit::keymap::{
    decide_key_action, decide_mouse_action, InputMode, KeyCode, KeyInput, MouseScroll, UiAction,
    UiState, ViewMode,
};
use conduit::numfmt::{i32_to_string, u64_to_string};
use conduit::paths::{from_hex, is_safe_repo_name, normalize_pasted_path, percent_decode, PasteImageError};
use conduit::queue::{queue_line_text, truncate_queue_line, QueuedImage, QueuedMessage};
use conduit::runner::{error_to_event, validate_start_config, AgentStartConfig};
use conduit::session::{AgentError, SessionId, SessionMetadata};
use conduit::text::{ascii_lower, str_contains_sub, str_first_line, str_is_blank, str_trim};
use conduit::widgets::{truncate_utf8, GlobalFooter, SessionHeader};

#[test]
fn trim_and_first_line_behave_like_std() {
    assert_eq!(str_trim("  a b  "), "a b");
    assert_eq!(str_trim("\n\t x \u{00A0}"), "x");
    assert_eq!(str_trim(""), "");
    assert_eq!(str_trim("   "), "");
    assert_eq!(str_first_line("one\ntwo"), "one");
    assert_eq!(str_first_line("solo"), "solo");
    assert_eq!(str_first_line("\nrest"), "");
    assert!(str_is_blank(" \t\n"));
    assert!(!str_is_blank(" x "));
}

#[test]
fn numbers_render_in_decimal() {
    assert_eq!(u64_to_string(0), "0");
    assert_eq!(u64_to_string(42), "42");
    assert_eq!(u64_to_string(18446744073709551615), "18446744073709551615");
    assert_eq!(i32_to_string(-7), "-7");
    assert_eq!(i32_to_string(-2147483648), "-2147483648");
    assert_eq!(i32_to_string(0), "0");
}

#[test]
fn percent_decoding_decodes_hex_escapes() {
    assert_eq!(percent_decode("a%20b"), "a b");
    assert_eq!(percent_decode("%41%42"), "AB");
    assert_eq!(percent_decode("no escapes"), "no escapes");
    // An incomplete escape is passed through.
    assert_eq!(percent_decode("%4"), "%4");
    assert_eq!(percent_decode("%zz!"), "%zz!");
}

#[test]
fn from_hex_accepts_both_cases() {
    assert_eq!(from_hex(b'0'), Some(0));
    assert_eq!(from_hex(b'9'), Some(9));
    assert_eq!(from_hex(b'a'), Some(10));
    assert_eq!(from_hex(b'F'), Some(15));
    assert_eq!(from_hex(b'g'), None);
}

#[test]
fn pasted_paths_are_normalized() {
    assert_eq!(normalize_pasted_path("  /tmp/file.txt "), Some(String::from("/tmp/file.txt")));
    assert_eq!(
        normalize_pasted_path("\"/tmp/my file.png\""),
        Some(String::from("/tmp/my file.png"))
    );
    assert_eq!(
        normalize_pasted_path("file:///tmp/a%20b.png"),
        Some(String::from("/tmp/a b.png"))
    );
    assert_eq!(
        normalize_pasted_path("file://localhost/tmp/x.png"),
        Some(String::from("tmp/x.png"))
    );
    assert_eq!(normalize_pasted_path("   "), None);
    assert_eq!(normalize_pasted_path("\"\""), None);
}

#[test]
fn unsafe_repo_name_is_rejected() {
    assert!(!is_safe_repo_name("../bad"));
    assert!(!is_safe_repo_name("a/b"));
    assert!(!is_safe_repo_name(".."));
    assert!(!is_safe_repo_name("."));
    assert!(!is_safe_repo_name(""));
    assert!(is_safe_repo_name("my-repo"));
}

#[test]
fn input_box_edits_at_the_cursor() {
    let mut b = InputBox::new();
    b.insert_char('a');
    b.insert_char('b');
    b.move_left();
    b.insert_char('x');
    assert_eq!(b.input(), "axb");
    b.backspace();
    assert_eq!(b.input(), "ab");
    b.move_end();
    b.backspace();
    assert_eq!(b.input(), "a");
    b.move_start();
    b.delete();
    assert_eq!(b.input(), "");
    assert!(b.is_empty());
}

#[test]
fn input_box_handles_multibyte_characters() {
    let mut b = InputBox::new();
    b.insert_char('é');
    b.insert_char('漢');
    b.move_left();
    b.backspace();
    assert_eq!(b.input(), "漢");
}

#[test]
fn input_box_history_round_trip() {
    let mut b = InputBox::new();
    b.set_input(String::from("first"));
    assert_eq!(b.submit(), "first");
    b.set_input(String::from("second"));
    assert_eq!(b.submit(), "second");
    b.set_input(String::from("draft"));
    b.history_prev();
    assert_eq!(b.input(), "second");
    b.history_prev();
    assert_eq!(b.input(), "first");
    b.history_prev();
    assert_eq!(b.input(), "first");
    b.history_next();
    assert_eq!(b.input(), "second");
    b.history_next();
    assert_eq!(b.input(), "draft");
}

#[test]
fn blank_submissions_stay_out_of_history() {
    let mut b = InputBox::new();
    b.set_input(String::from("   "));
    assert_eq!(b.submit(), "   ");
    b.history_prev();
    assert_eq!(b.input(), "");
}

#[test]
fn truncate_utf8_counts_characters() {
    assert_eq!(truncate_utf8("hello", 10), "hello");
    assert_eq!(truncate_utf8("hello", 4), "hel…");
    assert_eq!(truncate_utf8("ééééé", 3), "éé…");
}

#[test]
fn session_header_shows_title_or_placeholder() {
    let titled = SessionHeader::new(Some("Fix the bug"));
    assert_eq!(titled.display_text(50), "Fix the bug");
    let fresh = SessionHeader::new(None);
    assert_eq!(fresh.display_text(50), "New session");
}

#[test]
fn footer_lists_default_hints() {
    let footer = GlobalFooter::new();
    let hints = footer.hints();
    assert_eq!(hints.len(), 6);
    assert_eq!(hints[0], ("Tab", "Switch"));
    assert_eq!(hints[4], ("Ctrl+Q", "Quit"));
    let custom = GlobalFooter::with_hints(vec![("?", "Help")]);
    assert_eq!(custom.hints().len(), 1);
}

#[test]
fn queue_lines_are_width_truncated() {
    assert_eq!(truncate_queue_line("hello world", 20), "hello world");
    assert_eq!(truncate_queue_line("hello world", 8), "hello...");
    assert_eq!(truncate_queue_line("hello world", 2), "..");
    assert_eq!(truncate_queue_line("hello world", 0), "");
    // Full-width characters count two columns each.
    assert_eq!(truncate_queue_line("ｈｅｌｌｏ", 5), "ｈ...");
}

#[test]
fn queue_preview_describes_the_message() {
    let m = QueuedMessage {
        text: String::from("  first line\nsecond  "),
        mode: conduit::events::AgentMode::Build,
        images: vec![QueuedImage { path: String::from("/p"), placeholder: String::from("[i]") }],
    };
    assert_eq!(queue_line_text(&m, 0), "build: first line ... [1 image]");
    let empty = QueuedMessage {
        text: String::from("   "),
        mode: conduit::events::AgentMode::Plan,
        images: vec![],
    };
    assert_eq!(queue_line_text(&empty, 0), "plan: <empty>");
}

#[test]
fn start_config_rejects_blank_prompts() {
    // An empty-after-trim prompt is rejected before any process could spawn.
    let blank = AgentStartConfig::new(String::from("  \n "), String::from("/work"));
    assert!(matches!(validate_start_config(&blank), Err(AgentError::Config(_))));
    let ok = AgentStartConfig::new(String::from("do it"), String::from("/work"));
    assert!(validate_start_config(&ok).is_ok());
}

#[test]
fn runner_failures_settle_the_turn() {
    let ev = error_to_event(&AgentError::Crashed(3));
    match ev {
        conduit::events::AgentEvent::TurnFailed { message } => {
            assert_eq!(message, "Agent crashed with exit code: 3");
        }
        _ => panic!("expected a terminal failure"),
    }
    let decode = error_to_event(&AgentError::JsonParse(String::from("bad frame")));
    match decode {
        conduit::events::AgentEvent::Error { message, is_fatal } => {
            assert!(!is_fatal);
            assert_eq!(message, "JSON parse error: bad frame");
        }
        _ => panic!("expected a non-fatal error event"),
    }
}

#[test]
fn session_ids_are_uuid_shaped() {
    let id = SessionId::new();
    assert_eq!(id.as_str().len(), 36);
    let other = SessionId::new();
    assert_ne!(id.as_str(), other.as_str());
}

#[test]
fn session_metadata_accounts_usage() {
    let mut meta = SessionMetadata::new(String::from("sonnet"), String::from("/work"));
    assert_eq!(meta.total_tokens_used, 0);
    meta.add_tokens(100);
    meta.add_tokens(50);
    assert_eq!(meta.total_tokens_used, 150);
    meta.increment_turn();
    meta.increment_turn();
    assert_eq!(meta.turn_count, 2);
    assert_eq!(meta.created_at, meta.last_active);
}

fn plain(code: KeyCode) -> KeyInput {
    KeyInput { code, ctrl: false, alt: false, shift: false, meta: false }
}

fn ctrl(c: char) -> KeyInput {
    KeyInput { code: KeyCode::Char(c), ctrl: true, alt: false, shift: false, meta: false }
}

fn chat_state() -> UiState {
    UiState {
        input_mode: InputMode::Normal,
        view_mode: ViewMode::Chat,
        tabs_empty: false,
        input_is_empty: false,
        can_move_up: false,
        can_move_down: false,
        cursor_on_first_line: true,
        cursor_on_last_line: true,
    }
}

#[test]
fn key_dispatch_global_shortcuts() {
    let s = chat_state();
    assert_eq!(decide_key_action(s, ctrl('q')), UiAction::Quit);
    assert_eq!(decide_key_action(s, ctrl('n')), UiAction::OpenAgentSelector);
    assert_eq!(decide_key_action(s, ctrl('c')), UiAction::Interrupt);
    assert_eq!(decide_key_action(s, ctrl('g')), UiAction::ToggleViewMode);
    assert_eq!(decide_key_action(s, ctrl('2')), UiAction::SwitchToTab(1));
    // Ctrl+W deletes a word while the input has text, else closes the tab.
    assert_eq!(decide_key_action(s, ctrl('w')), UiAction::DeleteWordBack);
    let mut empty_input = s;
    empty_input.input_is_empty = true;
    assert_eq!(decide_key_action(empty_input, ctrl('w')), UiAction::CloseActiveTab);
}

#[test]
fn key_dispatch_enter_submits_nonblank_input() {
    let s = chat_state();
    assert_eq!(decide_key_action(s, plain(KeyCode::Enter)), UiAction::SubmitPrompt);
    let mut empty_input = s;
    empty_input.input_is_empty = true;
    assert_eq!(decide_key_action(empty_input, plain(KeyCode::Enter)), UiAction::Nothing);
    let mut shifted = plain(KeyCode::Enter);
    shifted.shift = true;
    assert_eq!(decide_key_action(s, shifted), UiAction::InsertNewline);
}

#[test]
fn key_dispatch_splash_screen_creates_tabs() {
    let mut s = chat_state();
    s.tabs_empty = true;
    assert_eq!(
        decide_key_action(s, plain(KeyCode::Char('1'))),
        UiAction::NewTab(conduit::events::AgentType::Sonnet)
    );
    assert_eq!(
        decide_key_action(s, plain(KeyCode::Char('x'))),
        UiAction::NewTab(conduit::events::AgentType::Codex)
    );
    assert_eq!(decide_key_action(s, plain(KeyCode::Char('q'))), UiAction::Quit);
}

#[test]
fn key_dispatch_history_at_input_edges() {
    let s = chat_state();
    assert_eq!(decide_key_action(s, plain(KeyCode::Up)), UiAction::HistoryPrev);
    assert_eq!(decide_key_action(s, plain(KeyCode::Down)), UiAction::HistoryNext);
    let mut multiline = s;
    multiline.can_move_up = true;
    assert_eq!(decide_key_action(multiline, plain(KeyCode::Up)), UiAction::MoveCursorUp);
}

#[test]
fn every_agent_error_has_a_message() {
    assert_eq!(AgentError::ProcessSpawnFailed.message(), "Failed to spawn agent process");
    assert_eq!(AgentError::StdoutCaptureFailed.message(), "Failed to capture stdout");
    assert_eq!(AgentError::Io(String::from("eof")).message(), "IO error: eof");
    assert_eq!(
        AgentError::BinaryNotFound(String::from("sonnet")).message(),
        "Agent binary not found: sonnet"
    );
    assert_eq!(
        AgentError::SessionNotFound(String::from("s9")).message(),
        "Session not found: s9"
    );
    assert_eq!(
        AgentError::NotSupported(String::from("resume")).message(),
        "Operation not supported: resume"
    );
    assert_eq!(AgentError::Timeout(500).message(), "Agent timeout after 500ms");
    assert_eq!(AgentError::ChannelClosed.message(), "Channel closed unexpectedly");
    assert_eq!(AgentError::Config(String::from("bad")).message(), "Configuration error: bad");
}

#[test]
fn paste_image_errors_describe_themselves() {
    assert_eq!(
        PasteImageError::ClipboardUnavailable(String::from("x")).message(),
        "clipboard unavailable: x"
    );
    assert_eq!(PasteImageError::NoImage(String::from("y")).message(), "no image on clipboard: y");
    assert_eq!(
        PasteImageError::EncodeFailed(String::from("z")).message(),
        "could not encode image: z"
    );
    assert_eq!(PasteImageError::IoError(String::from("w")).message(), "io error: w");
}

#[test]
fn mouse_scroll_maps_to_three_lines() {
    assert_eq!(decide_mouse_action(MouseScroll::Up), UiAction::ScrollUp(3));
    assert_eq!(decide_mouse_action(MouseScroll::Down), UiAction::ScrollDown(3));
}

#[test]
fn filenames_are_extracted_from_tool_output() {
    assert_eq!(
        extract_filename("Updated src/main.rs successfully"),
        Some(String::from("src/main.rs"))
    );
    assert_eq!(extract_filename("Wrote (src/lib.rs)"), Some(String::from("src/lib.rs")));
    // The first path-mentioning line wins.
    assert_eq!(
        extract_filename("all done\nsee notes.txt for details"),
        Some(String::from("notes.txt"))
    );
    // Hidden-file style words are not taken for filenames.
    assert_eq!(extract_filename(".env"), None);
    assert_eq!(extract_filename("nothing to report"), None);
    assert_eq!(extract_filename(""), None);
}


#[test]
fn substring_search_matches_anywhere() {
    assert!(str_contains_sub("multiedit", "edit"));
    assert!(str_contains_sub("edit", "edit"));
    assert!(str_contains_sub("anything", ""));
    assert!(!str_contains_sub("read", "edit"));
    assert!(!str_contains_sub("ed", "edit"));
    assert!(str_contains_sub("xwritey", "write"));
}

#[test]
fn ascii_lowering_leaves_other_characters() {
    assert_eq!(ascii_lower("MultiEdit"), "multiedit");
    assert_eq!(ascii_lower("déjà-VU"), "déjà-vu");
}
