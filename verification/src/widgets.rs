//! The data behind the fixed chrome widgets: the footer's key hints and the
//! session header's title, with character-safe truncation.

use vstd::prelude::*;
use crate::text::{owned, push_char};

verus! {

/// Global footer showing keyboard shortcuts.
pub struct GlobalFooter {
    hints: Vec<(&'static str, &'static str)>,
}

impl GlobalFooter {
    /// The default hint set, in display order.
    pub fn new() -> (r: GlobalFooter)
        ensures
            r.spec_hints().len() == 6,
            r.spec_hints()[0].0@ == "Tab"@ && r.spec_hints()[0].1@ == "Switch"@,
            r.spec_hints()[1].0@ == "Ctrl+N"@ && r.spec_hints()[1].1@ == "New"@,
            r.spec_hints()[2].0@ == "Ctrl+W"@ && r.spec_hints()[2].1@ == "Close"@,
            r.spec_hints()[3].0@ == "Ctrl+C"@ && r.spec_hints()[3].1@ == "Interrupt"@,
            r.spec_hints()[4].0@ == "Ctrl+Q"@ && r.spec_hints()[4].1@ == "Quit"@,
            r.spec_hints()[5].0@ == "?"@ && r.spec_hints()[5].1@ == "Help"@,
    {
        let mut hints: Vec<(&'static str, &'static str)> = Vec::new();
        hints.push(("Tab", "Switch"));
        hints.push(("Ctrl+N", "New"));
        hints.push(("Ctrl+W", "Close"));
        hints.push(("Ctrl+C", "Interrupt"));
        hints.push(("Ctrl+Q", "Quit"));
        hints.push(("?", "Help"));
        GlobalFooter { hints }
    }

    /// A footer with the given hints instead of the defaults.
    pub fn with_hints(hints: Vec<(&'static str, &'static str)>) -> (r: GlobalFooter)
        ensures
            r.spec_hints() == hints@,
    {
        GlobalFooter { hints }
    }

    pub closed spec fn spec_hints(&self) -> Seq<(&'static str, &'static str)> {
        self.hints@
    }

    /// The hints, for the rendering layer.
    pub fn hints(&self) -> (r: &Vec<(&'static str, &'static str)>)
        ensures
            r@ == self.spec_hints(),
    {
        &self.hints
    }
}

impl Default for GlobalFooter {
    fn default() -> (r: GlobalFooter)
        ensures
            r.spec_hints().len() == 6,
    {
        GlobalFooter::new()
    }
}

/// Character-safe truncation for display: text longer than `max_chars`
/// characters keeps one character less and gains a trailing ellipsis.
pub open spec fn spec_truncate_utf8(s: Seq<char>, max_chars: int) -> Seq<char> {
    if s.len() <= max_chars {
        s
    } else {
        s.take(if max_chars >= 1 {
            max_chars - 1
        } else {
            0
        }).push('\u{2026}')
    }
}

/// Truncate to at most `max_chars` characters, ellipsis included.
pub fn truncate_utf8(s: &str, max_chars: usize) -> (r: String)
    ensures
        r@ == spec_truncate_utf8(s@, max_chars as int),
{
    let count = s.unicode_len();
    if count <= max_chars {
        owned(s)
    } else {
        let keep = if max_chars >= 1 {
            max_chars - 1
        } else {
            0
        };
        let prefix = s.substring_char(0, keep);
        let mut out = owned(prefix);
        push_char(&mut out, '\u{2026}');
        proof {
            assert(s@.subrange(0, keep as int) =~= s@.take(keep as int));
        }
        out
    }
}

/// Session header: the session's title, or a placeholder for a new session.
pub struct SessionHeader<'a> {
    title: Option<&'a str>,
}

impl<'a> SessionHeader<'a> {
    /// Create a new session header.
    pub fn new(title: Option<&'a str>) -> (r: SessionHeader<'a>)
        ensures
            r.spec_title() == title,
    {
        SessionHeader { title }
    }

    pub closed spec fn spec_title(&self) -> Option<&'a str> {
        self.title
    }

    /// The text the header shows within a width of `max_chars` characters:
    /// the title, or `New session` without one, character-safely truncated.
    pub fn display_text(&self, max_chars: usize) -> (r: String)
        ensures
            self.spec_title() matches Some(t) ==> r@ == spec_truncate_utf8(
                t@,
                max_chars as int,
            ),
            self.spec_title() is None ==> r@ == spec_truncate_utf8(
                "New session"@,
                max_chars as int,
            ),
    {
        match self.title {
            Some(t) => truncate_utf8(t, max_chars),
            None => truncate_utf8("New session", max_chars),
        }
    }
}

} // verus!
