//! The interactive frontend's key dispatch as a pure decision: from the
//! current UI state and one key press to the action the loop performs. The
//! loop itself (terminal events, drawing, timers) lives outside the library;
//! it hands plain key values in and performs the returned action.

use vstd::prelude::*;
use crate::events::AgentType;

verus! {

/// A key, independent of any terminal backend.
#[derive(Clone, Copy, Debug, PartialEq, Eq, Structural)]
pub enum KeyCode {
    Char(char),
    Enter,
    Backspace,
    Delete,
    Left,
    Right,
    Home,
    End,
    Up,
    Down,
    PageUp,
    PageDown,
    Tab,
    BackTab,
    Esc,
}

/// One key press with its modifiers.
#[derive(Clone, Copy, Debug, PartialEq, Eq, Structural)]
pub struct KeyInput {
    pub code: KeyCode,
    pub ctrl: bool,
    pub alt: bool,
    pub shift: bool,
    pub meta: bool,
}

impl KeyInput {
    pub open spec fn no_modifiers(&self) -> bool {
        !self.ctrl && !self.alt && !self.shift && !self.meta
    }
}

/// What the input currently drives.
#[derive(Clone, Copy, Debug, PartialEq, Eq, Structural)]
pub enum InputMode {
    Normal,
    SelectingAgent,
    Scrolling,
    QueueEditing,
}

/// Which surface the active tab shows.
#[derive(Clone, Copy, Debug, PartialEq, Eq, Structural)]
pub enum ViewMode {
    Chat,
    RawEvents,
}

/// The state the dispatch decision reads.
#[derive(Clone, Copy, Debug, PartialEq, Eq, Structural)]
pub struct UiState {
    pub input_mode: InputMode,
    pub view_mode: ViewMode,
    /// No tabs exist (the splash screen is showing).
    pub tabs_empty: bool,
    /// The active tab's input is blank.
    pub input_is_empty: bool,
    /// The cursor can move up / down a line within a multi-line input.
    pub can_move_up: bool,
    pub can_move_down: bool,
    /// The cursor sits on the first / last line of the input.
    pub cursor_on_first_line: bool,
    pub cursor_on_last_line: bool,
}

/// What the loop does in response to a key.
#[derive(Clone, Copy, Debug, PartialEq, Eq, Structural)]
pub enum UiAction {
    Nothing,
    Quit,
    DumpDebugState,
    OpenAgentSelector,
    CloseAgentSelector,
    NewTab(AgentType),
    CloseActiveTab,
    SwitchToTab(usize),
    NextTab,
    PrevTab,
    Interrupt,
    SubmitPrompt,
    InsertChar(char),
    InsertNewline,
    Backspace,
    DeleteChar,
    DeleteWordBack,
    DeleteToStart,
    DeleteToEnd,
    MoveCursorLeft,
    MoveCursorRight,
    MoveCursorStart,
    MoveCursorEnd,
    MoveCursorUp,
    MoveCursorDown,
    MoveWordLeft,
    MoveWordRight,
    HistoryPrev,
    HistoryNext,
    ToggleViewMode,
    ToggleRawEventExpand,
    RawEventsSelectPrev,
    RawEventsSelectNext,
    RawEventsCollapse,
    ScrollUp(u32),
    ScrollDown(u32),
    ScrollToTop,
    ScrollToBottom,
    EnterNormalMode,
}

/// A mouse scroll, independent of any terminal backend.
#[derive(Clone, Copy, Debug, PartialEq, Eq, Structural)]
pub enum MouseScroll {
    Up,
    Down,
}

/// Decide the action for one mouse scroll: three lines per notch.
pub fn decide_mouse_action(scroll: MouseScroll) -> (r: UiAction)
    ensures
        scroll is Up ==> r == UiAction::ScrollUp(3),
        scroll is Down ==> r == UiAction::ScrollDown(3),
{
    match scroll {
        MouseScroll::Up => UiAction::ScrollUp(3),
        MouseScroll::Down => UiAction::ScrollDown(3),
    }
}

/// Decide the action for one key press. Control shortcuts are global:
/// quitting, opening the agent selector, closing or switching tabs, the
/// interrupt, the readline motions, and the view toggle all work in any
/// mode. On the splash screen plain keys create the first tab or quit. In
/// the agent selector a choice creates a tab and escape cancels. In normal
/// mode, enter submits a non-blank input (or inserts a newline with shift or
/// a command modifier held); plain characters insert; arrow keys move the
/// cursor, falling back to history navigation at the input's edges. In
/// scrolling mode the motion keys scroll and escape returns to normal mode.
pub fn decide_key_action(state: UiState, key: KeyInput) -> (r: UiAction)
    ensures
        (key.ctrl && key.shift && (key.code == KeyCode::Char('D') || key.code == KeyCode::Char(
            'd',
        ))) ==> r == UiAction::DumpDebugState,
        key.ctrl && !key.shift ==> {
            &&& key.code == KeyCode::Char('q') ==> r == UiAction::Quit
            &&& key.code == KeyCode::Char('n') ==> r == UiAction::OpenAgentSelector
            &&& key.code == KeyCode::Char('w') ==> r == (if !state.tabs_empty
                && !state.input_is_empty {
                UiAction::DeleteWordBack
            } else {
                UiAction::CloseActiveTab
            })
            &&& key.code == KeyCode::Char('c') ==> r == UiAction::Interrupt
            &&& key.code == KeyCode::Char('a') ==> r == UiAction::MoveCursorStart
            &&& key.code == KeyCode::Char('e') ==> r == UiAction::MoveCursorEnd
            &&& key.code == KeyCode::Char('u') ==> r == UiAction::DeleteToStart
            &&& key.code == KeyCode::Char('k') ==> r == UiAction::DeleteToEnd
            &&& key.code == KeyCode::Char('j') ==> r == UiAction::InsertNewline
            &&& key.code == KeyCode::Char('b') ==> r == UiAction::MoveCursorLeft
            &&& key.code == KeyCode::Char('f') ==> r == UiAction::MoveCursorRight
            &&& key.code == KeyCode::Char('d') ==> r == UiAction::DeleteChar
            &&& key.code == KeyCode::Char('h') ==> r == UiAction::Backspace
            &&& key.code == KeyCode::Char('g') ==> r == UiAction::ToggleViewMode
            &&& key.code == KeyCode::Char('2') ==> r == UiAction::SwitchToTab(1)
            &&& key.code == KeyCode::Char('9') ==> r == UiAction::SwitchToTab(8)
        },
        (state.tabs_empty && key.no_modifiers() && !(state.input_mode is SelectingAgent)) ==> {
            &&& key.code == KeyCode::Char('1') || key.code == KeyCode::Char('c') ==> r
                == UiAction::NewTab(AgentType::Sonnet)
            &&& key.code == KeyCode::Char('2') || key.code == KeyCode::Char('x') ==> r
                == UiAction::NewTab(AgentType::Codex)
            &&& key.code == KeyCode::Char('q') ==> r == UiAction::Quit
        },
        (state.input_mode is SelectingAgent && key.no_modifiers() && !state.tabs_empty) ==> {
            &&& key.code == KeyCode::Char('1') || key.code == KeyCode::Char('c') ==> r
                == UiAction::NewTab(AgentType::Sonnet)
            &&& key.code == KeyCode::Char('2') || key.code == KeyCode::Char('x') ==> r
                == UiAction::NewTab(AgentType::Codex)
            &&& key.code == KeyCode::Esc ==> r == UiAction::CloseAgentSelector
        },
        (state.input_mode is Normal && key.no_modifiers() && !state.tabs_empty) ==> {
            &&& key.code == KeyCode::Enter ==> r == (if state.view_mode is RawEvents {
                UiAction::ToggleRawEventExpand
            } else if !state.input_is_empty {
                UiAction::SubmitPrompt
            } else {
                UiAction::Nothing
            })
            &&& key.code matches KeyCode::Char(c) ==> r == UiAction::InsertChar(c)
            &&& key.code == KeyCode::Backspace ==> r == UiAction::Backspace
            &&& key.code == KeyCode::Delete ==> r == UiAction::DeleteChar
            &&& key.code == KeyCode::Left ==> r == UiAction::MoveCursorLeft
            &&& key.code == KeyCode::Right ==> r == UiAction::MoveCursorRight
            &&& key.code == KeyCode::Home ==> r == UiAction::MoveCursorStart
            &&& key.code == KeyCode::End ==> r == UiAction::MoveCursorEnd
        },
        (state.input_mode is Normal && key.no_modifiers() && !state.tabs_empty && state.view_mode
            is Chat) ==> {
            &&& key.code == KeyCode::Up ==> r == (if !state.can_move_up
                && state.cursor_on_first_line {
                UiAction::HistoryPrev
            } else {
                UiAction::MoveCursorUp
            })
            &&& key.code == KeyCode::Down ==> r == (if !state.can_move_down
                && state.cursor_on_last_line {
                UiAction::HistoryNext
            } else {
                UiAction::MoveCursorDown
            })
            &&& key.code == KeyCode::Tab ==> r == (if state.input_is_empty {
                UiAction::NextTab
            } else {
                UiAction::Nothing
            })
            &&& key.code == KeyCode::Esc ==> r == UiAction::ScrollToBottom
        },
        (state.input_mode is Scrolling && key.no_modifiers() && !state.tabs_empty) ==> {
            &&& key.code == KeyCode::Up ==> r == UiAction::ScrollUp(1)
            &&& key.code == KeyCode::Down ==> r == UiAction::ScrollDown(1)
            &&& key.code == KeyCode::PageUp ==> r == UiAction::ScrollUp(10)
            &&& key.code == KeyCode::PageDown ==> r == UiAction::ScrollDown(10)
            &&& key.code == KeyCode::Esc ==> r == UiAction::EnterNormalMode
        },
{
    // Dump shortcut: checked first, before plain control shortcuts.
    if key.ctrl && key.shift {
        match key.code {
            KeyCode::Char('D') | KeyCode::Char('d') => {
                return UiAction::DumpDebugState;
            },
            _ => {},
        }
    }
    // Global control shortcuts, in any mode.
    if key.ctrl && !key.shift {
        match key.code {
            KeyCode::Char('q') => {
                return UiAction::Quit;
            },
            KeyCode::Char('n') => {
                return UiAction::OpenAgentSelector;
            },
            KeyCode::Char('w') => {
                if !state.tabs_empty && !state.input_is_empty {
                    return UiAction::DeleteWordBack;
                }
                return UiAction::CloseActiveTab;
            },
            KeyCode::Char('c') => {
                return UiAction::Interrupt;
            },
            KeyCode::Char('a') => {
                return UiAction::MoveCursorStart;
            },
            KeyCode::Char('e') => {
                return UiAction::MoveCursorEnd;
            },
            KeyCode::Char('u') => {
                return UiAction::DeleteToStart;
            },
            KeyCode::Char('k') => {
                return UiAction::DeleteToEnd;
            },
            KeyCode::Char('j') => {
                return UiAction::InsertNewline;
            },
            KeyCode::Char('b') => {
                return UiAction::MoveCursorLeft;
            },
            KeyCode::Char('f') => {
                return UiAction::MoveCursorRight;
            },
            KeyCode::Char('d') => {
                return UiAction::DeleteChar;
            },
            KeyCode::Char('h') => {
                return UiAction::Backspace;
            },
            KeyCode::Char('g') => {
                return UiAction::ToggleViewMode;
            },
            KeyCode::Char(c) => {
                if '1' <= c && c <= '9' {
                    let d = (c as u32) - ('0' as u32);
                    return UiAction::SwitchToTab((d - 1) as usize);
                }
            },
            _ => {},
        }
    }
    // Splash screen: plain keys create the first tab or quit.
    if state.tabs_empty && !key.ctrl && !key.alt && !key.shift && !key.meta {
        match key.code {
            KeyCode::Char('1') | KeyCode::Char('c') => {
                return UiAction::NewTab(AgentType::Sonnet);
            },
            KeyCode::Char('2') | KeyCode::Char('x') => {
                return UiAction::NewTab(AgentType::Codex);
            },
            KeyCode::Char('q') => {
                return UiAction::Quit;
            },
            _ => {},
        }
    }
    // Word motions.
    if key.alt {
        match key.code {
            KeyCode::Char('b') => {
                return UiAction::MoveWordLeft;
            },
            KeyCode::Char('f') => {
                return UiAction::MoveWordRight;
            },
            KeyCode::Backspace => {
                return UiAction::DeleteWordBack;
            },
            _ => {},
        }
    }
    match state.input_mode {
        InputMode::SelectingAgent => {
            match key.code {
                KeyCode::Char('1') | KeyCode::Char('c') => UiAction::NewTab(AgentType::Sonnet),
                KeyCode::Char('2') | KeyCode::Char('x') => UiAction::NewTab(AgentType::Codex),
                KeyCode::Esc => UiAction::CloseAgentSelector,
                _ => UiAction::Nothing,
            }
        },
        InputMode::Normal => {
            if state.tabs_empty {
                return UiAction::Nothing;
            }
            match key.code {
                KeyCode::Enter => {
                    if matches!(state.view_mode, ViewMode::RawEvents) {
                        UiAction::ToggleRawEventExpand
                    } else if key.shift || key.meta {
                        UiAction::InsertNewline
                    } else if !state.input_is_empty {
                        UiAction::SubmitPrompt
                    } else {
                        UiAction::Nothing
                    }
                },
                KeyCode::Backspace => UiAction::Backspace,
                KeyCode::Delete => UiAction::DeleteChar,
                KeyCode::Left => UiAction::MoveCursorLeft,
                KeyCode::Right => UiAction::MoveCursorRight,
                KeyCode::Home => UiAction::MoveCursorStart,
                KeyCode::End => UiAction::MoveCursorEnd,
                KeyCode::Up => {
                    if matches!(state.view_mode, ViewMode::RawEvents) {
                        UiAction::RawEventsSelectPrev
                    } else if !state.can_move_up && state.cursor_on_first_line {
                        UiAction::HistoryPrev
                    } else {
                        UiAction::MoveCursorUp
                    }
                },
                KeyCode::Down => {
                    if matches!(state.view_mode, ViewMode::RawEvents) {
                        UiAction::RawEventsSelectNext
                    } else if !state.can_move_down && state.cursor_on_last_line {
                        UiAction::HistoryNext
                    } else {
                        UiAction::MoveCursorDown
                    }
                },
                KeyCode::PageUp => UiAction::ScrollUp(10),
                KeyCode::PageDown => UiAction::ScrollDown(10),
                KeyCode::Tab => {
                    if matches!(state.view_mode, ViewMode::RawEvents) {
                        UiAction::ToggleRawEventExpand
                    } else if state.input_is_empty {
                        UiAction::NextTab
                    } else {
                        UiAction::Nothing
                    }
                },
                KeyCode::BackTab => {
                    if state.input_is_empty {
                        UiAction::PrevTab
                    } else {
                        UiAction::Nothing
                    }
                },
                KeyCode::Char(c) => UiAction::InsertChar(c),
                KeyCode::Esc => {
                    if matches!(state.view_mode, ViewMode::RawEvents) {
                        UiAction::RawEventsCollapse
                    } else {
                        UiAction::ScrollToBottom
                    }
                },
            }
        },
        InputMode::Scrolling => {
            if state.tabs_empty {
                return UiAction::Nothing;
            }
            match key.code {
                KeyCode::Up | KeyCode::Char('k') => UiAction::ScrollUp(1),
                KeyCode::Down | KeyCode::Char('j') => UiAction::ScrollDown(1),
                KeyCode::PageUp => UiAction::ScrollUp(10),
                KeyCode::PageDown => UiAction::ScrollDown(10),
                KeyCode::Home | KeyCode::Char('g') => UiAction::ScrollToTop,
                KeyCode::End | KeyCode::Char('G') => UiAction::ScrollToBottom,
                KeyCode::Esc | KeyCode::Char('q') | KeyCode::Char('i') => UiAction::EnterNormalMode,
                _ => UiAction::Nothing,
            }
        },
        InputMode::QueueEditing => UiAction::Nothing,
    }
}

} // verus!
