//! The per-session turn state machine and the bounded session registry.
//!
//! A session record is Idle or Processing; a `TurnStarted` event makes it
//! Processing and a terminal event (completion, failure, fatal error) makes
//! it Idle again. Submissions made while Processing are queued in order and
//! collapsed into exactly one next submission on the transition back to
//! Idle. The registry owns the records, enforces its capacity, and discards
//! events addressed to closed tabs.

use vstd::prelude::*;
use crate::chat::{ChatMessage, FileChange, TurnSummary};
use crate::events::{AgentEvent, AgentType, TokenUsage, sat_add_u64};
use crate::queue::{
    QueuedMessage, QueueDelivery, spec_all_image_paths, spec_all_placeholders,
    spec_submission_text,
};
use crate::session::SessionId;
use crate::filescan::{spec_extract_filename, spec_lines};
use crate::text::{spec_ascii_lower, spec_contains_sub, views_of};

verus! {

/// Direction of a logged raw event.
#[derive(Clone, Copy, Debug, PartialEq, Eq, Structural)]
pub enum EventDirection {
    Sent,
    Received,
}

/// One entry of the per-session raw event log: direction, the event kind's
/// name, the payload rendered as text, and the time since the session
/// started, in milliseconds (measured by the caller).
#[derive(Debug)]
pub struct RawEventRecord {
    pub direction: EventDirection,
    pub event_type: String,
    pub payload: String,
    pub elapsed_ms: i64,
}

/// A tool whose successful completion counts as a file edit.
pub open spec fn spec_is_edit_tool(id: Seq<char>) -> bool {
    spec_contains_sub(spec_ascii_lower(id), "edit"@) || spec_contains_sub(
        spec_ascii_lower(id),
        "write"@,
    )
}

/// One conversation bound to a backend, surviving across turns.
#[derive(Debug)]
pub struct AgentSession {
    pub id: SessionId,
    pub agent_type: AgentType,
    /// Backend-native session identifier, present only after `SessionInit`.
    pub agent_session_id: Option<String>,
    /// True between `TurnStarted` and the turn's terminal event.
    pub is_processing: bool,
    /// Submissions captured while a turn was running, in arrival order.
    pub queued_messages: Vec<QueuedMessage>,
    /// Selection cursor of the queue editor, when open.
    pub queue_selection: Option<usize>,
    /// Rendered transcript, append-only.
    pub transcript: Vec<ChatMessage>,
    /// Raw received/sent event log, append-only.
    pub raw_events: Vec<RawEventRecord>,
    /// Partial assistant output of the running turn.
    pub streaming_buffer: String,
    /// Usage accounting for the turn now running.
    pub current_turn_summary: TurnSummary,
    /// Monotone totals over all finished turns.
    pub total_usage: TokenUsage,
    /// Finished turns, successful or failed.
    pub turn_count: u64,
}

impl AgentSession {
    /// The queue-selection cursor stays inside the queue.
    pub open spec fn inv(&self) -> bool {
        match self.queue_selection {
            Some(k) => self.queued_messages@.len() > 0 && k < self.queued_messages@.len(),
            None => true,
        }
    }

    /// A fresh Idle session with an empty transcript and queue.
    pub fn new(id: SessionId, agent_type: AgentType) -> (r: AgentSession)
        ensures
            r.inv(),
            r.id == id,
            r.agent_type == agent_type,
            r.agent_session_id is None,
            !r.is_processing,
            r.queued_messages@.len() == 0,
            r.queue_selection is None,
            r.transcript@.len() == 0,
            r.raw_events@.len() == 0,
            r.streaming_buffer@.len() == 0,
            r.total_usage.input_tokens == 0 && r.total_usage.output_tokens == 0
                && r.total_usage.cached_tokens == 0,
            r.turn_count == 0,
    {
        AgentSession {
            id,
            agent_type,
            agent_session_id: None,
            is_processing: false,
            queued_messages: Vec::new(),
            queue_selection: None,
            transcript: Vec::new(),
            raw_events: Vec::new(),
            streaming_buffer: String::new(),
            current_turn_summary: TurnSummary::new(),
            total_usage: TokenUsage::zero(),
            turn_count: 0,
        }
    }

    /// Submit a prompt bundle. While Idle this starts a turn at once: the
    /// prompt joins the transcript as a user item, the session becomes
    /// Processing, and the caller starts the backend. While Processing the
    /// bundle is appended to the queue instead, in arrival order, and
    /// nothing else changes.
    pub fn submit_prompt(&mut self, msg: QueuedMessage) -> (started: bool)
        requires
            old(self).inv(),
        ensures
            final(self).inv(),
            started == !old(self).is_processing,
            old(self).is_processing ==> {
                &&& final(self).queued_messages@ == old(self).queued_messages@.push(msg)
                &&& final(self).transcript@ == old(self).transcript@
                &&& final(self).is_processing
            },
            !old(self).is_processing ==> {
                &&& final(self).queued_messages@ == old(self).queued_messages@
                &&& final(self).is_processing
                &&& final(self).transcript@ == old(self).transcript@.push(
                    final(self).transcript@.last(),
                )
                &&& final(self).transcript@.last().role is User
                &&& final(self).transcript@.last().content@ == msg.text@
            },
            final(self).id == old(self).id,
            final(self).agent_type == old(self).agent_type,
            final(self).agent_session_id == old(self).agent_session_id,
            final(self).total_usage == old(self).total_usage,
            final(self).turn_count == old(self).turn_count,
            final(self).queue_selection == old(self).queue_selection,
            final(self).raw_events@ == old(self).raw_events@,
    {
        if self.is_processing {
            self.queued_messages.push(msg);
            false
        } else {
            self.transcript.push(ChatMessage::user(msg.text));
            self.is_processing = true;
            true
        }
    }

    /// Apply one agent event to the record. The processing flag becomes true
    /// on `TurnStarted`, false on a terminal event, and is otherwise kept;
    /// usage totals grow by a completed turn's usage; the turn counter
    /// increments exactly once per terminal event; the queue is never
    /// touched; transcript items are appended per event kind.
    pub fn apply_event(&mut self, event: &AgentEvent)
        requires
            old(self).inv(),
        ensures
            final(self).inv(),
            final(self).id == old(self).id,
            final(self).agent_type == old(self).agent_type,
            final(self).queued_messages@ == old(self).queued_messages@,
            final(self).queue_selection == old(self).queue_selection,
            final(self).raw_events@ == old(self).raw_events@,
            !(event is ToolCompleted) && !(event is TurnCompleted) ==> final(self).current_turn_summary == old(self).current_turn_summary,
            final(self).is_processing == (if event is TurnStarted {
                true
            } else if event.spec_is_terminal() {
                false
            } else {
                old(self).is_processing
            }),
            final(self).turn_count == if event.spec_is_terminal() {
                sat_add_u64(old(self).turn_count, 1)
            } else {
                old(self).turn_count
            },
            event matches AgentEvent::TurnCompleted { usage } ==> {
                &&& final(self).total_usage.input_tokens == sat_add_u64(
                    old(self).total_usage.input_tokens,
                    usage.input_tokens,
                )
                &&& final(self).total_usage.output_tokens == sat_add_u64(
                    old(self).total_usage.output_tokens,
                    usage.output_tokens,
                )
                &&& final(self).total_usage.cached_tokens == sat_add_u64(
                    old(self).total_usage.cached_tokens,
                    usage.cached_tokens,
                )
            },
            !(event is TurnCompleted) ==> final(self).total_usage == old(self).total_usage,
            event matches AgentEvent::SessionInit { session_id } ==> {
                &&& final(self).agent_session_id matches Some(s) && s@ == session_id@
                &&& final(self).transcript@ == old(self).transcript@
            },
            !(event is SessionInit) ==> final(self).agent_session_id == old(self).agent_session_id,
            (event is TurnStarted) ==> final(self).transcript@ == old(self).transcript@,
            event matches AgentEvent::AssistantMessage { text, is_final } ==> {
                &&& *is_final ==> {
                    &&& final(self).transcript@ == old(self).transcript@.push(
                        final(self).transcript@.last(),
                    )
                    &&& final(self).transcript@.last().role is Assistant
                    &&& final(self).transcript@.last().content@ == text@
                    &&& final(self).streaming_buffer@ == old(self).streaming_buffer@
                }
                &&& !*is_final ==> {
                    &&& final(self).transcript@ == old(self).transcript@
                    &&& final(self).streaming_buffer@ == old(self).streaming_buffer@ + text@
                }
            },
            event matches AgentEvent::TurnFailed { message } ==> {
                &&& final(self).transcript@ == old(self).transcript@.push(
                    final(self).transcript@.last(),
                )
                &&& final(self).transcript@.last().role is Error
                &&& final(self).transcript@.last().content@ == message@
            },
            event matches AgentEvent::Error { message, is_fatal } ==> {
                &&& final(self).transcript@ == old(self).transcript@.push(
                    final(self).transcript@.last(),
                )
                &&& final(self).transcript@.last().role is Error
                &&& final(self).transcript@.last().content@ == message@
            },
            event matches AgentEvent::ToolStarted { tool_name, arguments } ==> {
                &&& final(self).transcript@ == old(self).transcript@.push(
                    final(self).transcript@.last(),
                )
                &&& final(self).transcript@.last().role is Tool
                &&& final(self).transcript@.last().tool_name matches Some(n) && n@ == tool_name@
                &&& final(self).transcript@.last().tool_args matches Some(a) && a@ == arguments@
                &&& final(self).transcript@.last().content@ == "Running..."@
            },
            event matches AgentEvent::ToolCompleted { tool_id, success, result, error } ==> {
                &&& *success ==> (result matches Some(res) ==> ({
                    let found = spec_extract_filename(spec_lines(res@));
                    &&& (spec_is_edit_tool(tool_id@) && found is Some) ==> ({
                        let files = final(self).current_turn_summary.files_changed@;
                        &&& files.len() == old(self).current_turn_summary.files_changed@.len()
                            + 1
                        &&& files.take(files.len() - 1) == old(self).current_turn_summary.files_changed@
                        &&& files.last().filename@ == found->0
                        &&& files.last().additions == 5
                        &&& files.last().deletions == 2
                        &&& final(self).current_turn_summary.duration_secs == old(self).current_turn_summary.duration_secs
                        &&& final(self).current_turn_summary.input_tokens == old(self).current_turn_summary.input_tokens
                        &&& final(self).current_turn_summary.output_tokens == old(self).current_turn_summary.output_tokens
                    })
                    &&& !(spec_is_edit_tool(tool_id@) && found is Some) ==> final(self).current_turn_summary == old(self).current_turn_summary
                }))
                &&& !*success ==> final(self).current_turn_summary == old(self).current_turn_summary
                &&& (*success && result is None) ==> final(self).current_turn_summary == old(self).current_turn_summary
                &&& final(self).transcript@ == old(self).transcript@.push(
                    final(self).transcript@.last(),
                )
                &&& final(self).transcript@.last().role is Tool
                &&& final(self).transcript@.last().tool_name matches Some(n) && n@ == tool_id@
                &&& final(self).transcript@.last().content@ == (if *success {
                    match result {
                        Some(text) => text@,
                        None => "Completed"@,
                    }
                } else {
                    "Error: "@ + (match error {
                        Some(text) => text@,
                        None => Seq::<char>::empty(),
                    })
                })
            },
            event matches AgentEvent::CommandOutput { command, output, exit_code } ==> {
                &&& final(self).transcript@ == old(self).transcript@.push(
                    final(self).transcript@.last(),
                )
                &&& final(self).transcript@.last().role is Tool
                &&& final(self).transcript@.last().tool_name matches Some(n) && n@ == "Bash"@
                &&& final(self).transcript@.last().tool_args matches Some(a) && a@ == command@
                &&& final(self).transcript@.last().content@ == (match exit_code {
                    Some(code) => output@ + "\n[exit: "@ + crate::numfmt::spec_i32_str(
                        code as int,
                    ) + "]"@,
                    None => output@,
                })
            },
            (event is TurnCompleted) ==> {
                &&& final(self).streaming_buffer@.len() == 0
                &&& final(self).transcript@.len() > old(self).transcript@.len()
                &&& final(self).transcript@.last().role is Summary
                &&& old(self).streaming_buffer@.len() == 0 ==> final(self).transcript@ == old(self).transcript@.push(final(self).transcript@.last())
                &&& old(self).streaming_buffer@.len() > 0 ==> ({
                    let flushed = final(self).transcript@[final(self).transcript@.len() - 2];
                    &&& final(self).transcript@ == old(self).transcript@.push(flushed).push(
                        final(self).transcript@.last(),
                    )
                    &&& flushed.role is Assistant
                    &&& flushed.content@ == old(self).streaming_buffer@
                })
                &&& final(self).transcript@.last().summary == Some(old(self).current_turn_summary)
                &&& final(self).current_turn_summary.files_changed@.len() == 0
                &&& final(self).current_turn_summary.duration_secs == 0
            },
    {
        match event {
            AgentEvent::SessionInit { session_id } => {
                self.agent_session_id = Some(crate::text::owned(session_id.as_str()));
            },
            AgentEvent::TurnStarted => {
                self.is_processing = true;
            },
            AgentEvent::AssistantMessage { text, is_final } => {
                if *is_final {
                    self.transcript.push(ChatMessage::assistant(crate::text::owned(text.as_str())));
                } else {
                    self.streaming_buffer.append(text.as_str());
                }
            },
            AgentEvent::ToolStarted { tool_name, arguments } => {
                self.transcript.push(
                    ChatMessage::tool(
                        crate::text::owned(tool_name.as_str()),
                        crate::text::owned(arguments.as_str()),
                        crate::text::owned("Running..."),
                    ),
                );
            },
            AgentEvent::ToolCompleted { tool_id, success, result, error } => {
                if *success {
                    let lower = crate::text::ascii_lower(tool_id.as_str());
                    let is_edit = crate::text::str_contains_sub(lower.as_str(), "edit")
                        || crate::text::str_contains_sub(lower.as_str(), "write");
                    if is_edit {
                        match result {
                            Some(res) => {
                                match crate::filescan::extract_filename(res.as_str()) {
                                    Some(filename) => {
                                        let ghost before =
                                            self.current_turn_summary.files_changed@;
                                        self.current_turn_summary.files_changed.push(
                                            FileChange { filename, additions: 5, deletions: 2 },
                                        );
                                        proof {
                                            assert(self.current_turn_summary.files_changed@.take(
                                                before.len() as int,
                                            ) =~= before);
                                        }
                                    },
                                    None => {},
                                }
                            },
                            None => {},
                        }
                    }
                }
                let content: String = if *success {
                    match result {
                        Some(r) => crate::text::owned(r.as_str()),
                        None => crate::text::owned("Completed"),
                    }
                } else {
                    let mut c = String::from_str("Error: ");
                    match error {
                        Some(e) => { c.append(e.as_str()) },
                        None => {},
                    }
                    c
                };
                self.transcript.push(
                    ChatMessage::tool(
                        crate::text::owned(tool_id.as_str()),
                        String::new(),
                        content,
                    ),
                );
            },
            AgentEvent::CommandOutput { command, output, exit_code } => {
                let mut content = crate::text::owned(output.as_str());
                match exit_code {
                    Some(code) => {
                        content.append("\n[exit: ");
                        content.append(crate::numfmt::i32_to_string(*code).as_str());
                        content.append("]");
                    },
                    None => {},
                }
                self.transcript.push(
                    ChatMessage::tool(
                        crate::text::owned("Bash"),
                        crate::text::owned(command.as_str()),
                        content,
                    ),
                );
            },
            AgentEvent::TurnCompleted { usage } => {
                self.total_usage.add(*usage);
                self.turn_count = crate::events::sat_add_u64_exec(self.turn_count, 1);
                self.is_processing = false;
                if self.streaming_buffer.as_str().unicode_len() > 0 {
                    let text = crate::text::owned(self.streaming_buffer.as_str());
                    self.transcript.push(ChatMessage::assistant(text));
                    self.streaming_buffer = String::new();
                }
                let summary = self.take_turn_summary();
                self.transcript.push(ChatMessage::turn_summary(summary));
            },
            AgentEvent::TurnFailed { message } => {
                self.turn_count = crate::events::sat_add_u64_exec(self.turn_count, 1);
                self.is_processing = false;
                self.transcript.push(ChatMessage::error(crate::text::owned(message.as_str())));
            },
            AgentEvent::Error { message, is_fatal } => {
                self.transcript.push(ChatMessage::error(crate::text::owned(message.as_str())));
                if *is_fatal {
                    self.turn_count = crate::events::sat_add_u64_exec(self.turn_count, 1);
                    self.is_processing = false;
                }
            },
        }
    }

    /// Swap the running turn's summary out for a fresh one.
    fn take_turn_summary(&mut self) -> (r: TurnSummary)
        ensures
            final(self).id == old(self).id,
            final(self).agent_type == old(self).agent_type,
            final(self).agent_session_id == old(self).agent_session_id,
            final(self).is_processing == old(self).is_processing,
            final(self).queued_messages@ == old(self).queued_messages@,
            final(self).queue_selection == old(self).queue_selection,
            final(self).transcript@ == old(self).transcript@,
            final(self).raw_events@ == old(self).raw_events@,
            final(self).streaming_buffer@ == old(self).streaming_buffer@,
            final(self).total_usage == old(self).total_usage,
            final(self).turn_count == old(self).turn_count,
            r == old(self).current_turn_summary,
            final(self).current_turn_summary.files_changed@.len() == 0,
            final(self).current_turn_summary.duration_secs == 0,
            final(self).current_turn_summary.input_tokens == 0,
            final(self).current_turn_summary.output_tokens == 0,
    {
        let mut summary = TurnSummary::new();
        core::mem::swap(&mut self.current_turn_summary, &mut summary);
        summary
    }

    /// Record one changed file against the running turn.
    pub fn record_file_change(&mut self, filename: String, additions: u64, deletions: u64)
        requires
            old(self).inv(),
        ensures
            final(self).inv(),
            final(self).current_turn_summary.files_changed@.len() == old(self).current_turn_summary.files_changed@.len() + 1,
            final(self).is_processing == old(self).is_processing,
            final(self).transcript@ == old(self).transcript@,
            final(self).raw_events@ == old(self).raw_events@,
            final(self).queued_messages@ == old(self).queued_messages@,
            final(self).queue_selection == old(self).queue_selection,
    {
        self.current_turn_summary.files_changed.push(
            crate::chat::FileChange { filename, additions, deletions },
        );
    }

    /// Append one entry to the raw event log; nothing else changes.
    pub fn record_raw_event(&mut self, record: RawEventRecord)
        requires
            old(self).inv(),
        ensures
            final(self).inv(),
            final(self).raw_events@ == old(self).raw_events@.push(record),
            final(self).id == old(self).id,
            final(self).agent_type == old(self).agent_type,
            final(self).agent_session_id == old(self).agent_session_id,
            final(self).is_processing == old(self).is_processing,
            final(self).queued_messages@ == old(self).queued_messages@,
            final(self).queue_selection == old(self).queue_selection,
            final(self).transcript@ == old(self).transcript@,
            final(self).streaming_buffer@ == old(self).streaming_buffer@,
            final(self).current_turn_summary == old(self).current_turn_summary,
            final(self).total_usage == old(self).total_usage,
            final(self).turn_count == old(self).turn_count,
    {
        self.raw_events.push(record);
    }

    /// On the transition back to Idle, collapse the queued submissions into
    /// exactly one next submission and clear the queue atomically: the
    /// dispatch happens if and only if the session is Idle and the queue is
    /// non-empty, it contains every queued item exactly once in arrival
    /// order, and nothing is dispatched otherwise.
    pub fn take_queued_submission(&mut self, delivery: QueueDelivery) -> (r: Option<
        (String, Vec<String>, Vec<String>),
    >)
        requires
            old(self).inv(),
        ensures
            final(self).inv(),
            r is Some <==> (!old(self).is_processing && old(self).queued_messages@.len() > 0),
            r matches Some(sub) ==> {
                &&& sub.0@ == spec_submission_text(old(self).queued_messages@, delivery)
                &&& views_of(sub.1@) == spec_all_image_paths(old(self).queued_messages@)
                &&& views_of(sub.2@) == spec_all_placeholders(old(self).queued_messages@)
                &&& final(self).queued_messages@.len() == 0
                &&& final(self).queue_selection is None
            },
            r is None ==> {
                &&& final(self).queued_messages@ == old(self).queued_messages@
                &&& final(self).queue_selection == old(self).queue_selection
            },
            final(self).id == old(self).id,
            final(self).agent_type == old(self).agent_type,
            final(self).agent_session_id == old(self).agent_session_id,
            final(self).is_processing == old(self).is_processing,
            final(self).transcript@ == old(self).transcript@,
            final(self).raw_events@ == old(self).raw_events@,
            final(self).total_usage == old(self).total_usage,
            final(self).turn_count == old(self).turn_count,
    {
        if self.is_processing || self.queued_messages.len() == 0 {
            return None;
        }
        let sub = crate::queue::build_queued_submission(&self.queued_messages, delivery);
        self.queued_messages = Vec::new();
        self.queue_selection = None;
        Some(sub)
    }

    /// A best-effort, cooperative interrupt: the record returns to Idle and
    /// notes the interruption in the transcript; nothing is promised about
    /// the external process.
    pub fn interrupt(&mut self)
        requires
            old(self).inv(),
        ensures
            final(self).inv(),
            !final(self).is_processing,
            old(self).is_processing ==> {
                &&& final(self).transcript@ == old(self).transcript@.push(
                    final(self).transcript@.last(),
                )
                &&& final(self).transcript@.last().role is System
                &&& final(self).transcript@.last().content@ == "Interrupted"@
            },
            !old(self).is_processing ==> final(self).transcript@ == old(self).transcript@,
            final(self).queued_messages@ == old(self).queued_messages@,
            final(self).queue_selection == old(self).queue_selection,
            final(self).raw_events@ == old(self).raw_events@,
            final(self).turn_count == old(self).turn_count,
            final(self).total_usage == old(self).total_usage,
    {
        if self.is_processing {
            self.transcript.push(ChatMessage::system(crate::text::owned("Interrupted")));
            self.is_processing = false;
        }
    }
}

/// Keep the queue-editor cursor inside the queue: no queue clears it, and a
/// cursor past the end moves to the last item.
pub fn clamp_queue_selection(session: &mut AgentSession)
    ensures
        final(session).inv(),
        final(session).queued_messages@ == old(session).queued_messages@,
        final(session).transcript@ == old(session).transcript@,
        final(session).is_processing == old(session).is_processing,
        old(session).queued_messages@.len() == 0 ==> final(session).queue_selection is None,
        old(session).queue_selection matches Some(k) ==> (old(session).queued_messages@.len() > 0
            ==> final(session).queue_selection == Some(
            if k >= old(session).queued_messages@.len() {
                (old(session).queued_messages@.len() - 1) as usize
            } else {
                k
            },
        )),
        old(session).queue_selection is None ==> final(session).queue_selection is None,
{
    if self_is_empty(session) {
        session.queue_selection = None;
        return ;
    }
    match session.queue_selection {
        Some(idx) => {
            let max = session.queued_messages.len() - 1;
            if idx > max {
                session.queue_selection = Some(max);
            }
        },
        None => {},
    }
}

fn self_is_empty(session: &AgentSession) -> (r: bool)
    ensures
        r == (session.queued_messages@.len() == 0),
{
    session.queued_messages.len() == 0
}

/// The bounded, insertion-ordered registry of session records. At most
/// `max_tabs` records ever live in it, and at most one is active.
#[derive(Debug)]
pub struct TabManager {
    sessions: Vec<AgentSession>,
    active: usize,
    max_tabs: usize,
}

impl TabManager {
    /// Size never exceeds capacity; the active index stays in range.
    pub closed spec fn inv(&self) -> bool {
        &&& self.sessions@.len() <= self.max_tabs
        &&& (self.sessions@.len() > 0 ==> self.active < self.sessions@.len())
        &&& (self.sessions@.len() == 0 ==> self.active == 0)
        &&& forall|i: int| 0 <= i < self.sessions@.len() ==> #[trigger] self.sessions@[i].inv()
    }

    pub closed spec fn spec_sessions(&self) -> Seq<AgentSession> {
        self.sessions@
    }

    pub closed spec fn spec_active(&self) -> int {
        self.active as int
    }

    pub closed spec fn spec_capacity(&self) -> int {
        self.max_tabs as int
    }

    /// An empty registry with the given capacity.
    pub fn new(max_tabs: usize) -> (r: TabManager)
        ensures
            r.inv(),
            r.spec_sessions().len() == 0,
            r.spec_capacity() == max_tabs,
            r.spec_active() == 0,
    {
        TabManager { sessions: Vec::new(), active: 0, max_tabs }
    }

    pub fn len(&self) -> (r: usize)
        ensures
            r == self.spec_sessions().len(),
    {
        self.sessions.len()
    }

    pub fn is_empty(&self) -> (r: bool)
        ensures
            r == (self.spec_sessions().len() == 0),
    {
        self.sessions.len() == 0
    }

    pub fn can_add_tab(&self) -> (r: bool)
        ensures
            r == (self.spec_sessions().len() < self.spec_capacity()),
    {
        self.sessions.len() < self.max_tabs
    }

    pub fn active_index(&self) -> (r: usize)
        ensures
            r == self.spec_active(),
    {
        self.active
    }

    /// Create a session and select it — unless the registry is full, in
    /// which case nothing changes and the rejection is reported, never
    /// silently dropped.
    pub fn new_tab(&mut self, agent_type: AgentType) -> (r: Option<usize>)
        requires
            old(self).inv(),
        ensures
            final(self).inv(),
            final(self).spec_capacity() == old(self).spec_capacity(),
            old(self).spec_sessions().len() < old(self).spec_capacity() ==> {
                &&& r == Some(old(self).spec_sessions().len() as usize)
                &&& final(self).spec_sessions().len() == old(self).spec_sessions().len() + 1
                &&& final(self).spec_sessions().take(old(self).spec_sessions().len() as int)
                    == old(self).spec_sessions()
                &&& final(self).spec_sessions().last().agent_type == agent_type
                &&& !final(self).spec_sessions().last().is_processing
                &&& final(self).spec_sessions().last().queued_messages@.len() == 0
                &&& final(self).spec_active() == old(self).spec_sessions().len()
            },
            old(self).spec_sessions().len() >= old(self).spec_capacity() ==> {
                &&& r is None
                &&& final(self).spec_sessions() == old(self).spec_sessions()
                &&& final(self).spec_active() == old(self).spec_active()
            },
            final(self).spec_sessions().len() <= final(self).spec_capacity(),
    {
        if self.sessions.len() >= self.max_tabs {
            return None;
        }
        let idx = self.sessions.len();
        let session = AgentSession::new(SessionId::new(), agent_type);
        self.sessions.push(session);
        self.active = idx;
        proof {
            assert(final(self).spec_sessions().take(old(self).spec_sessions().len() as int)
                =~= old(self).spec_sessions());
        }
        Some(idx)
    }

    /// Close the tab at `idx`: the record is removed and later records shift
    /// down one place; the active index stays in range. Closing an unknown
    /// index changes nothing.
    pub fn close_tab(&mut self, idx: usize)
        requires
            old(self).inv(),
        ensures
            final(self).inv(),
            final(self).spec_capacity() == old(self).spec_capacity(),
            idx < old(self).spec_sessions().len() ==> final(self).spec_sessions() == old(self).spec_sessions().remove(idx as int),
            idx >= old(self).spec_sessions().len() ==> final(self).spec_sessions() == old(self).spec_sessions(),
    {
        if idx < self.sessions.len() {
            self.sessions.remove(idx);
            if self.sessions.len() == 0 {
                self.active = 0;
            } else if self.active >= self.sessions.len() {
                self.active = self.sessions.len() - 1;
            }
        }
    }

    /// Select the tab at `idx`, if it exists.
    pub fn switch_to(&mut self, idx: usize)
        requires
            old(self).inv(),
        ensures
            final(self).inv(),
            final(self).spec_sessions() == old(self).spec_sessions(),
            final(self).spec_capacity() == old(self).spec_capacity(),
            idx < old(self).spec_sessions().len() ==> final(self).spec_active() == idx,
            idx >= old(self).spec_sessions().len() ==> final(self).spec_active() == old(self).spec_active(),
    {
        if idx < self.sessions.len() {
            self.active = idx;
        }
    }

    /// Select the next tab, wrapping around.
    pub fn next_tab(&mut self)
        requires
            old(self).inv(),
        ensures
            final(self).inv(),
            final(self).spec_sessions() == old(self).spec_sessions(),
            final(self).spec_capacity() == old(self).spec_capacity(),
            old(self).spec_sessions().len() > 1 ==> final(self).spec_active() == (old(self).spec_active() + 1) % old(self).spec_sessions().len() as int,
    {
        if self.sessions.len() > 1 {
            self.active = (self.active + 1) % self.sessions.len();
        }
    }

    /// Select the previous tab, wrapping around.
    pub fn prev_tab(&mut self)
        requires
            old(self).inv(),
        ensures
            final(self).inv(),
            final(self).spec_sessions() == old(self).spec_sessions(),
            final(self).spec_capacity() == old(self).spec_capacity(),
            old(self).spec_sessions().len() > 1 ==> final(self).spec_active() == if old(self).spec_active() == 0 {
                old(self).spec_sessions().len() - 1
            } else {
                old(self).spec_active() - 1
            },
    {
        let n = self.sessions.len();
        if n > 1 {
            if self.active == 0 {
                self.active = n - 1;
            } else {
                self.active = self.active - 1;
            }
        }
    }

    /// The active session, when any session exists.
    pub fn active_session(&self) -> (r: Option<&AgentSession>)
        requires
            self.inv(),
        ensures
            self.spec_sessions().len() == 0 ==> r is None,
            self.spec_sessions().len() > 0 ==> r == Some(
                &self.spec_sessions()[self.spec_active()],
            ),
    {
        if self.sessions.len() == 0 {
            None
        } else {
            Some(&self.sessions[self.active])
        }
    }

    /// The session at `idx`, when it exists.
    pub fn session_at(&self, idx: usize) -> (r: Option<&AgentSession>)
        requires
            self.inv(),
        ensures
            idx < self.spec_sessions().len() ==> r == Some(&self.spec_sessions()[idx as int]),
            idx >= self.spec_sessions().len() ==> r is None,
    {
        if idx < self.sessions.len() {
            Some(&self.sessions[idx])
        } else {
            None
        }
    }

    /// Append one entry to the raw event log of the session at `idx`; an
    /// unknown index changes nothing.
    pub fn record_raw_event(&mut self, idx: usize, record: RawEventRecord)
        requires
            old(self).inv(),
        ensures
            final(self).inv(),
            final(self).spec_capacity() == old(self).spec_capacity(),
            final(self).spec_active() == old(self).spec_active(),
            idx >= old(self).spec_sessions().len() ==> final(self).spec_sessions() == old(self).spec_sessions(),
            idx < old(self).spec_sessions().len() ==> {
                &&& final(self).spec_sessions().len() == old(self).spec_sessions().len()
                &&& forall|i: int|
                    0 <= i < old(self).spec_sessions().len() && i != idx
                        ==> final(self).spec_sessions()[i] == old(self).spec_sessions()[i]
                &&& final(self).spec_sessions()[idx as int].raw_events@ == old(self).spec_sessions()[idx as int].raw_events@.push(record)
                &&& final(self).spec_sessions()[idx as int].transcript@ == old(self).spec_sessions()[idx as int].transcript@
                &&& final(self).spec_sessions()[idx as int].is_processing == old(self).spec_sessions()[idx as int].is_processing
            },
    {
        if idx < self.sessions.len() {
            self.sessions[idx].record_raw_event(record);
        }
    }

    /// Submit a prompt bundle to the session at `idx`; see
    /// `AgentSession::submit_prompt`. Returns whether a turn was started,
    /// or `None` for an unknown index (nothing changes).
    pub fn submit_to(&mut self, idx: usize, msg: QueuedMessage) -> (r: Option<bool>)
        requires
            old(self).inv(),
        ensures
            final(self).inv(),
            final(self).spec_capacity() == old(self).spec_capacity(),
            final(self).spec_active() == old(self).spec_active(),
            idx >= old(self).spec_sessions().len() ==> r is None && final(self).spec_sessions()
                == old(self).spec_sessions(),
            idx < old(self).spec_sessions().len() ==> {
                &&& final(self).spec_sessions().len() == old(self).spec_sessions().len()
                &&& forall|i: int|
                    0 <= i < old(self).spec_sessions().len() && i != idx
                        ==> final(self).spec_sessions()[i] == old(self).spec_sessions()[i]
                &&& r == Some(!old(self).spec_sessions()[idx as int].is_processing)
                &&& old(self).spec_sessions()[idx as int].is_processing ==> ({
                    &&& final(self).spec_sessions()[idx as int].queued_messages@ == old(self).spec_sessions()[idx as int].queued_messages@.push(msg)
                    &&& final(self).spec_sessions()[idx as int].is_processing
                })
                &&& !old(self).spec_sessions()[idx as int].is_processing ==> {
                    &&& final(self).spec_sessions()[idx as int].is_processing
                    &&& final(self).spec_sessions()[idx as int].queued_messages@ == old(self).spec_sessions()[idx as int].queued_messages@
                }
            },
    {
        if idx >= self.sessions.len() {
            return None;
        }
        let started = self.sessions[idx].submit_prompt(msg);
        Some(started)
    }

    /// Interrupt the session at `idx`; see `AgentSession::interrupt`. An
    /// unknown index changes nothing.
    pub fn interrupt(&mut self, idx: usize)
        requires
            old(self).inv(),
        ensures
            final(self).inv(),
            final(self).spec_capacity() == old(self).spec_capacity(),
            final(self).spec_active() == old(self).spec_active(),
            idx >= old(self).spec_sessions().len() ==> final(self).spec_sessions() == old(self).spec_sessions(),
            idx < old(self).spec_sessions().len() ==> {
                &&& final(self).spec_sessions().len() == old(self).spec_sessions().len()
                &&& forall|i: int|
                    0 <= i < old(self).spec_sessions().len() && i != idx
                        ==> final(self).spec_sessions()[i] == old(self).spec_sessions()[i]
                &&& !final(self).spec_sessions()[idx as int].is_processing
                &&& final(self).spec_sessions()[idx as int].queued_messages@ == old(self).spec_sessions()[idx as int].queued_messages@
            },
    {
        if idx < self.sessions.len() {
            self.sessions[idx].interrupt();
        }
    }

    /// Deliver one agent event for the tab at `idx`. Events for closed or
    /// unknown tabs are discarded. After a terminal event returns the
    /// session to Idle with a non-empty queue, the queued submissions are
    /// collapsed into exactly one dispatch (returned for the caller to
    /// start) and the queue is cleared atomically.
    pub fn on_agent_event(
        &mut self,
        idx: usize,
        event: &AgentEvent,
        delivery: QueueDelivery,
    ) -> (r: Option<(String, Vec<String>, Vec<String>)>)
        requires
            old(self).inv(),
        ensures
            final(self).inv(),
            final(self).spec_capacity() == old(self).spec_capacity(),
            final(self).spec_active() == old(self).spec_active(),
            idx >= old(self).spec_sessions().len() ==> r is None && final(self).spec_sessions()
                == old(self).spec_sessions(),
            idx < old(self).spec_sessions().len() ==> {
                &&& final(self).spec_sessions().len() == old(self).spec_sessions().len()
                &&& forall|i: int|
                    0 <= i < old(self).spec_sessions().len() && i != idx
                        ==> final(self).spec_sessions()[i] == old(self).spec_sessions()[i]
                &&& (r is Some <==> (!(event is TurnStarted) && (event.spec_is_terminal()
                    || !old(self).spec_sessions()[idx as int].is_processing) && old(self).spec_sessions()[idx as int].queued_messages@.len() > 0))
                &&& r matches Some(sub) ==> {
                    &&& sub.0@ == spec_submission_text(
                        old(self).spec_sessions()[idx as int].queued_messages@,
                        delivery,
                    )
                    &&& views_of(sub.1@) == spec_all_image_paths(
                        old(self).spec_sessions()[idx as int].queued_messages@,
                    )
                    &&& views_of(sub.2@) == spec_all_placeholders(
                        old(self).spec_sessions()[idx as int].queued_messages@,
                    )
                    &&& final(self).spec_sessions()[idx as int].queued_messages@.len() == 0
                }
                &&& r is None ==> final(self).spec_sessions()[idx as int].queued_messages@
                    == old(self).spec_sessions()[idx as int].queued_messages@
                &&& final(self).spec_sessions()[idx as int].is_processing == (if event
                    is TurnStarted {
                    true
                } else if event.spec_is_terminal() {
                    false
                } else {
                    old(self).spec_sessions()[idx as int].is_processing
                })
            },
    {
        if idx >= self.sessions.len() {
            return None;
        }
        self.sessions[idx].apply_event(event);
        self.sessions[idx].take_queued_submission(delivery)
    }
}

/// Queued submissions preserve order and lose nothing: starting from queue
/// `q` and appending the submissions `msgs` one at a time (each submission
/// while Processing appends, by `submit_prompt`'s contract) yields exactly
/// `q` followed by `msgs`. The single dispatch on the transition back to
/// Idle then collapses exactly that queue and clears it
/// (`take_queued_submission`), containing every queued item exactly once in
/// order (`build_queued_submission`).
pub open spec fn queue_fold(q: Seq<QueuedMessage>, msgs: Seq<QueuedMessage>) -> Seq<
    QueuedMessage,
>
    decreases msgs.len(),
{
    if msgs.len() == 0 {
        q
    } else {
        queue_fold(q.push(msgs[0]), msgs.drop_first())
    }
}

/// See `queue_fold`: any sequence of submissions made while Processing
/// leaves the queue equal to the old queue followed by the submissions, in
/// submission order.
pub proof fn lemma_submissions_keep_order(q: Seq<QueuedMessage>, msgs: Seq<QueuedMessage>)
    ensures
        queue_fold(q, msgs) == q + msgs,
    decreases msgs.len(),
{
    if msgs.len() == 0 {
        assert(queue_fold(q, msgs) =~= q + msgs);
    } else {
        lemma_submissions_keep_order(q.push(msgs[0]), msgs.drop_first());
        assert(q.push(msgs[0]) + msgs.drop_first() =~= q + msgs);
    }
}

/// The processing flag after a sequence of delivered events, starting from
/// `init`: `TurnStarted` sets it, a terminal event clears it, any other
/// event keeps it. This is exactly how `apply_event` drives the flag.
pub open spec fn processing_flag_after(init: bool, events: Seq<AgentEvent>) -> bool
    decreases events.len(),
{
    if events.len() == 0 {
        init
    } else if events.last() is TurnStarted {
        true
    } else if events.last().spec_is_terminal() {
        false
    } else {
        processing_flag_after(init, events.drop_last())
    }
}

/// An unterminated turn: some `TurnStarted` has no terminal event after it.
pub open spec fn open_turn(events: Seq<AgentEvent>) -> bool {
    exists|i: int|
        0 <= i < events.len() && events[i] is TurnStarted && (forall|k: int|
            i < k < events.len() ==> !(#[trigger] events[k]).spec_is_terminal())
}

/// A session never has more than one unterminated turn: after any sequence
/// of delivered events (starting Idle), the record is Processing exactly
/// when a `TurnStarted` has been delivered with no terminal event after it —
/// so Processing means the last turn is still open, and Idle means every
/// started turn has been terminated.
pub proof fn lemma_processing_iff_open_turn(events: Seq<AgentEvent>)
    ensures
        processing_flag_after(false, events) == open_turn(events),
    decreases events.len(),
{
    if events.len() == 0 {
    } else {
        let last = events.last();
        let front = events.drop_last();
        let n = events.len() as int;
        if last is TurnStarted {
            assert(events[n - 1] is TurnStarted);
            assert(forall|k: int| n - 1 < k < n ==> !(#[trigger] events[k]).spec_is_terminal());
            assert(open_turn(events));
        } else if last.spec_is_terminal() {
            if open_turn(events) {
                let i = choose|i: int|
                    0 <= i < n && events[i] is TurnStarted && (forall|k: int|
                        i < k < n ==> !(#[trigger] events[k]).spec_is_terminal());
                assert(i < n - 1 || i == n - 1);
                if i == n - 1 {
                    assert(events[i] is TurnStarted && events[i].spec_is_terminal());
                    assert(false);
                } else {
                    assert(!events[n - 1].spec_is_terminal());
                    assert(false);
                }
            }
        } else {
            lemma_processing_iff_open_turn(front);
            if open_turn(front) {
                let i = choose|i: int|
                    0 <= i < front.len() && front[i] is TurnStarted && (forall|k: int|
                        i < k < front.len() ==> !(#[trigger] front[k]).spec_is_terminal());
                assert(events[i] is TurnStarted);
                assert forall|k: int| i < k < n implies !(#[trigger] events[k]).spec_is_terminal()
                by {
                    if k < n - 1 {
                        assert(front[k] == events[k]);
                    }
                }
                assert(open_turn(events));
            }
            if open_turn(events) {
                let i = choose|i: int|
                    0 <= i < n && events[i] is TurnStarted && (forall|k: int|
                        i < k < n ==> !(#[trigger] events[k]).spec_is_terminal());
                assert(i != n - 1);
                assert(front[i] == events[i]);
                assert forall|k: int|
                    i < k < front.len() implies !(#[trigger] front[k]).spec_is_terminal() by {
                    assert(front[k] == events[k]);
                }
                assert(open_turn(front));
            }
        }
    }
}

} // verus!
