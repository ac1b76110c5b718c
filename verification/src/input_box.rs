//! The text-input component: an editable line buffer with a cursor and a
//! submission history. The cursor is held as a character index, always
//! within the current text.

use vstd::prelude::*;
use crate::text::{is_blank, str_is_blank, owned, views_of};

verus! {

/// Text input with cursor and history.
#[derive(Debug)]
pub struct InputBox {
    /// Current input text.
    input: String,
    /// Cursor position, as a character index into `input`.
    cursor_pos: usize,
    /// Submission history, oldest first.
    history: Vec<String>,
    /// Index into `history` while navigating it; `None` otherwise.
    history_index: Option<usize>,
    /// The in-progress input saved while navigating history.
    saved_input: String,
    /// Whether the input is focused.
    focused: bool,
}

impl InputBox {
    /// The cursor always lies within the text; a history index always
    /// names an entry.
    pub closed spec fn inv(&self) -> bool {
        &&& self.cursor_pos <= self.input@.len()
        &&& match self.history_index {
            Some(i) => i < self.history@.len(),
            None => true,
        }
    }

    pub closed spec fn spec_input(&self) -> Seq<char> {
        self.input@
    }

    pub closed spec fn spec_cursor(&self) -> int {
        self.cursor_pos as int
    }

    pub closed spec fn spec_history(&self) -> Seq<Seq<char>> {
        views_of(self.history@)
    }

    pub closed spec fn spec_history_index(&self) -> Option<usize> {
        self.history_index
    }

    pub closed spec fn spec_focused(&self) -> bool {
        self.focused
    }

    /// The in-progress input parked while history is being navigated.
    pub closed spec fn spec_saved(&self) -> Seq<char> {
        self.saved_input@
    }

    /// An empty, focused input with no history.
    pub fn new() -> (r: InputBox)
        ensures
            r.inv(),
            r.spec_input().len() == 0,
            r.spec_cursor() == 0,
            r.spec_history().len() == 0,
            r.spec_history_index() is None,
            r.spec_focused(),
    {
        InputBox {
            input: String::new(),
            cursor_pos: 0,
            history: Vec::new(),
            history_index: None,
            saved_input: String::new(),
            focused: true,
        }
    }

    /// The current input text.
    pub fn input(&self) -> (r: &str)
        ensures
            r@ == self.spec_input(),
    {
        self.input.as_str()
    }

    /// Replace the input text; the cursor moves to its end.
    pub fn set_input(&mut self, text: String)
        requires
            old(self).inv(),
        ensures
            final(self).inv(),
            final(self).spec_input() == text@,
            final(self).spec_cursor() == text@.len(),
            final(self).spec_history() == old(self).spec_history(),
            final(self).spec_history_index() == old(self).spec_history_index(),
    {
        let n = text.as_str().unicode_len();
        self.input = text;
        self.cursor_pos = n;
    }

    /// Clear the input and leave history-navigation mode.
    pub fn clear(&mut self)
        requires
            old(self).inv(),
        ensures
            final(self).inv(),
            final(self).spec_input().len() == 0,
            final(self).spec_cursor() == 0,
            final(self).spec_history() == old(self).spec_history(),
            final(self).spec_history_index() is None,
            final(self).spec_focused() == old(self).spec_focused(),
            final(self).spec_saved() == old(self).spec_saved(),
    {
        self.input = String::new();
        self.cursor_pos = 0;
        self.history_index = None;
    }

    /// Take the input for submission: the text is returned and cleared, and
    /// joins the history unless it is blank.
    pub fn submit(&mut self) -> (r: String)
        requires
            old(self).inv(),
        ensures
            final(self).inv(),
            r@ == old(self).spec_input(),
            final(self).spec_input().len() == 0,
            final(self).spec_cursor() == 0,
            final(self).spec_history_index() is None,
            !is_blank(r@) ==> final(self).spec_history() == old(self).spec_history().push(r@),
            is_blank(r@) ==> final(self).spec_history() == old(self).spec_history(),
    {
        let mut input = String::new();
        core::mem::swap(&mut self.input, &mut input);
        self.cursor_pos = 0;
        self.history_index = None;
        if !str_is_blank(input.as_str()) {
            let ghost before = self.history@;
            self.history.push(owned(input.as_str()));
            proof {
                crate::text::lemma_views_push(before, self.history@.last());
            }
        }
        input
    }

    /// Insert a character at the cursor; the cursor moves past it.
    pub fn insert_char(&mut self, c: char)
        requires
            old(self).inv(),
        ensures
            final(self).inv(),
            final(self).spec_input() == old(self).spec_input().insert(old(self).spec_cursor(), c),
            final(self).spec_cursor() == old(self).spec_cursor() + 1,
            final(self).spec_history() == old(self).spec_history(),
            final(self).spec_history_index() == old(self).spec_history_index(),
    {
        let n = self.input.as_str().unicode_len();
        let before = self.input.as_str().substring_char(0, self.cursor_pos);
        let after = self.input.as_str().substring_char(self.cursor_pos, n);
        let mut rebuilt = owned(before);
        crate::text::push_char(&mut rebuilt, c);
        rebuilt.append(after);
        // Reading the rebuilt length bounds the cursor bump below.
        let grown = rebuilt.as_str().unicode_len();
        let ghost old_input = self.input@;
        let ghost cur = self.cursor_pos as int;
        self.input = rebuilt;
        self.cursor_pos = self.cursor_pos + 1;
        proof {
            assert(self.input@ =~= old_input.insert(cur, c));
        }
    }

    /// Insert a newline at the cursor.
    pub fn insert_newline(&mut self)
        requires
            old(self).inv(),
        ensures
            final(self).inv(),
            final(self).spec_input() == old(self).spec_input().insert(
                old(self).spec_cursor(),
                '\n',
            ),
            final(self).spec_cursor() == old(self).spec_cursor() + 1,
            final(self).spec_history() == old(self).spec_history(),
            final(self).spec_history_index() == old(self).spec_history_index(),
    {
        self.insert_char('\n');
    }

    /// Delete the character before the cursor, when there is one.
    pub fn backspace(&mut self)
        requires
            old(self).inv(),
        ensures
            final(self).inv(),
            old(self).spec_cursor() > 0 ==> {
                &&& final(self).spec_input() == old(self).spec_input().remove(
                    old(self).spec_cursor() - 1,
                )
                &&& final(self).spec_cursor() == old(self).spec_cursor() - 1
            },
            old(self).spec_cursor() == 0 ==> {
                &&& final(self).spec_input() == old(self).spec_input()
                &&& final(self).spec_cursor() == 0
            },
            final(self).spec_history() == old(self).spec_history(),
            final(self).spec_history_index() == old(self).spec_history_index(),
    {
        if self.cursor_pos > 0 {
            let n = self.input.as_str().unicode_len();
            let before = self.input.as_str().substring_char(0, self.cursor_pos - 1);
            let after = self.input.as_str().substring_char(self.cursor_pos, n);
            let mut rebuilt = owned(before);
            rebuilt.append(after);
            let ghost old_input = self.input@;
            let ghost cur = self.cursor_pos as int;
            self.input = rebuilt;
            self.cursor_pos = self.cursor_pos - 1;
            proof {
                assert(self.input@ =~= old_input.remove(cur - 1));
            }
        }
    }

    /// Delete the character at the cursor, when there is one.
    pub fn delete(&mut self)
        requires
            old(self).inv(),
        ensures
            final(self).inv(),
            old(self).spec_cursor() < old(self).spec_input().len() ==> final(self).spec_input()
                == old(self).spec_input().remove(old(self).spec_cursor()),
            old(self).spec_cursor() >= old(self).spec_input().len() ==> final(self).spec_input()
                == old(self).spec_input(),
            final(self).spec_cursor() == old(self).spec_cursor(),
            final(self).spec_history() == old(self).spec_history(),
            final(self).spec_history_index() == old(self).spec_history_index(),
    {
        let n = self.input.as_str().unicode_len();
        if self.cursor_pos < n {
            let before = self.input.as_str().substring_char(0, self.cursor_pos);
            let after = self.input.as_str().substring_char(self.cursor_pos + 1, n);
            let mut rebuilt = owned(before);
            rebuilt.append(after);
            let ghost old_input = self.input@;
            let ghost cur = self.cursor_pos as int;
            self.input = rebuilt;
            proof {
                assert(self.input@ =~= old_input.remove(cur));
            }
        }
    }

    /// Move the cursor one character left, stopping at the start.
    pub fn move_left(&mut self)
        requires
            old(self).inv(),
        ensures
            final(self).inv(),
            final(self).spec_input() == old(self).spec_input(),
            final(self).spec_cursor() == if old(self).spec_cursor() > 0 {
                old(self).spec_cursor() - 1
            } else {
                0
            },
            final(self).spec_history() == old(self).spec_history(),
            final(self).spec_history_index() == old(self).spec_history_index(),
    {
        if self.cursor_pos > 0 {
            self.cursor_pos = self.cursor_pos - 1;
        }
    }

    /// Move the cursor one character right, stopping at the end.
    pub fn move_right(&mut self)
        requires
            old(self).inv(),
        ensures
            final(self).inv(),
            final(self).spec_input() == old(self).spec_input(),
            final(self).spec_cursor() == if old(self).spec_cursor() < old(self).spec_input().len() {
                old(self).spec_cursor() + 1
            } else {
                old(self).spec_cursor()
            },
            final(self).spec_history() == old(self).spec_history(),
            final(self).spec_history_index() == old(self).spec_history_index(),
    {
        let n = self.input.as_str().unicode_len();
        if self.cursor_pos < n {
            self.cursor_pos = self.cursor_pos + 1;
        }
    }

    /// Move the cursor to the start of the input.
    pub fn move_start(&mut self)
        requires
            old(self).inv(),
        ensures
            final(self).inv(),
            final(self).spec_input() == old(self).spec_input(),
            final(self).spec_cursor() == 0,
            final(self).spec_history() == old(self).spec_history(),
            final(self).spec_history_index() == old(self).spec_history_index(),
    {
        self.cursor_pos = 0;
    }

    /// Move the cursor to the end of the input.
    pub fn move_end(&mut self)
        requires
            old(self).inv(),
        ensures
            final(self).inv(),
            final(self).spec_input() == old(self).spec_input(),
            final(self).spec_cursor() == old(self).spec_input().len(),
            final(self).spec_history() == old(self).spec_history(),
            final(self).spec_history_index() == old(self).spec_history_index(),
    {
        self.cursor_pos = self.input.as_str().unicode_len();
    }

    /// Step to the previous (older) history entry. On first use the current
    /// input is saved and the newest entry is shown; at the oldest entry
    /// nothing changes; with no history nothing changes.
    pub fn history_prev(&mut self)
        requires
            old(self).inv(),
        ensures
            final(self).inv(),
            final(self).spec_history() == old(self).spec_history(),
            old(self).spec_history().len() == 0 ==> {
                &&& final(self).spec_input() == old(self).spec_input()
                &&& final(self).spec_history_index() == old(self).spec_history_index()
                &&& final(self).spec_saved() == old(self).spec_saved()
            },
            old(self).spec_history().len() > 0 ==> match old(self).spec_history_index() {
                None => {
                    &&& final(self).spec_history_index() == Some(
                        (old(self).spec_history().len() - 1) as usize,
                    )
                    &&& final(self).spec_input() == old(self).spec_history().last()
                    &&& final(self).spec_saved() == old(self).spec_input()
                },
                Some(i) => {
                    &&& (i == 0 ==> final(self).spec_input() == old(self).spec_input()
                        && final(self).spec_history_index() == Some(0usize))
                    &&& (i > 0 ==> final(self).spec_history_index() == Some((i - 1) as usize)
                        && final(self).spec_input() == old(self).spec_history()[i - 1])
                    &&& final(self).spec_saved() == old(self).spec_saved()
                },
            },
    {
        if self.history.len() == 0 {
            return ;
        }
        match self.history_index {
            None => {
                let mut saved = String::new();
                core::mem::swap(&mut self.input, &mut saved);
                self.saved_input = saved;
                let idx = self.history.len() - 1;
                self.history_index = Some(idx);
                self.input = owned(self.history[idx].as_str());
                self.cursor_pos = self.input.as_str().unicode_len();
            },
            Some(i) => {
                if i == 0 {
                    return ;
                }
                self.history_index = Some(i - 1);
                self.input = owned(self.history[i - 1].as_str());
                self.cursor_pos = self.input.as_str().unicode_len();
            },
        }
    }

    /// Step to the next (newer) history entry; past the newest entry the
    /// saved in-progress input returns. Outside history mode nothing
    /// changes.
    pub fn history_next(&mut self)
        requires
            old(self).inv(),
        ensures
            final(self).inv(),
            final(self).spec_history() == old(self).spec_history(),
            old(self).spec_history_index() is None ==> {
                &&& final(self).spec_input() == old(self).spec_input()
                &&& final(self).spec_history_index() is None
                &&& final(self).spec_saved() == old(self).spec_saved()
            },
            old(self).spec_history_index() matches Some(i) ==> {
                &&& (i + 1 >= old(self).spec_history().len() ==> ({
                    &&& final(self).spec_history_index() is None
                    &&& final(self).spec_input() == old(self).spec_saved()
                    &&& final(self).spec_saved().len() == 0
                }))
                &&& (i + 1 < old(self).spec_history().len() ==> ({
                    &&& final(self).spec_history_index() == Some((i + 1) as usize)
                    &&& final(self).spec_input() == old(self).spec_history()[i + 1]
                    &&& final(self).spec_saved() == old(self).spec_saved()
                }))
            },
    {
        match self.history_index {
            None => {
                return ;
            },
            Some(i) => {
                let hl = self.history.len();
                if i >= hl - 1 {
                    self.history_index = None;
                    let mut saved = String::new();
                    core::mem::swap(&mut self.saved_input, &mut saved);
                    self.input = saved;
                } else {
                    self.history_index = Some(i + 1);
                    self.input = owned(self.history[i + 1].as_str());
                }
                self.cursor_pos = self.input.as_str().unicode_len();
            },
        }
    }

    /// Set the focus state.
    pub fn set_focused(&mut self, focused: bool)
        requires
            old(self).inv(),
        ensures
            final(self).inv(),
            final(self).spec_focused() == focused,
            final(self).spec_input() == old(self).spec_input(),
            final(self).spec_cursor() == old(self).spec_cursor(),
            final(self).spec_history() == old(self).spec_history(),
            final(self).spec_history_index() == old(self).spec_history_index(),
    {
        self.focused = focused;
    }

    /// True when the input is blank (empty after trimming).
    pub fn is_empty(&self) -> (r: bool)
        ensures
            r == is_blank(self.spec_input()),
    {
        str_is_blank(self.input.as_str())
    }
}

impl Default for InputBox {
    fn default() -> (r: InputBox)
        ensures
            r.inv(),
            r.spec_input().len() == 0,
            r.spec_history().len() == 0,
    {
        InputBox::new()
    }
}

} // verus!
