//! The file-change heuristic over tool output: scan each line for the first
//! word that looks like a file path, stripping decoration characters from
//! the word's ends.

use vstd::prelude::*;
use crate::text::{is_ws_char, spec_first_line, spec_trim, str_trim, ws_char};

verus! {

/// Whether a character is alphanumeric, as the Unicode Alphabetic and
/// Number classification decides it; a function of the character alone.
pub uninterp spec fn is_alnum_char(c: char) -> bool;

/// Relies on `char::is_alphanumeric`: the Unicode alphanumeric test.
#[verifier::external_body]
pub fn alnum_char(c: char) -> (r: bool)
    ensures
        r == is_alnum_char(c),
{
    c.is_alphanumeric()
}

/// Characters that survive word trimming: alphanumerics and the path
/// punctuation a filename may carry.
pub open spec fn is_path_char(c: char) -> bool {
    is_alnum_char(c) || c == '/' || c == '.' || c == '_' || c == '-'
}

fn path_char(c: char) -> (r: bool)
    ensures
        r == is_path_char(c),
{
    alnum_char(c) || c == '/' || c == '.' || c == '_' || c == '-'
}

/// Number of leading non-path characters.
pub open spec fn deco_prefix_end(s: Seq<char>) -> int
    decreases s.len(),
{
    if s.len() == 0 {
        0
    } else if is_path_char(s[0]) {
        0
    } else {
        1 + deco_prefix_end(s.drop_first())
    }
}

/// Index after the last path character (0 when none is one).
pub open spec fn deco_suffix_start(s: Seq<char>) -> int
    decreases s.len(),
{
    if s.len() == 0 {
        0
    } else if is_path_char(s.last()) {
        s.len() as int
    } else {
        deco_suffix_start(s.drop_last())
    }
}

/// A word with decoration characters stripped from both ends.
pub open spec fn spec_trim_deco(s: Seq<char>) -> Seq<char> {
    if deco_prefix_end(s) <= deco_suffix_start(s) {
        s.subrange(deco_prefix_end(s), deco_suffix_start(s))
    } else {
        Seq::empty()
    }
}

proof fn lemma_deco_prefix_end(s: Seq<char>)
    ensures
        0 <= deco_prefix_end(s) <= s.len(),
        forall|j: int| 0 <= j < deco_prefix_end(s) ==> !is_path_char(s[j]),
        deco_prefix_end(s) < s.len() ==> is_path_char(s[deco_prefix_end(s)]),
    decreases s.len(),
{
    if s.len() != 0 && !is_path_char(s[0]) {
        lemma_deco_prefix_end(s.drop_first());
        assert forall|j: int| 0 <= j < deco_prefix_end(s) implies !is_path_char(s[j]) by {
            if j > 0 {
                assert(s.drop_first()[j - 1] == s[j]);
            }
        }
    }
}

proof fn lemma_deco_suffix_start(s: Seq<char>)
    ensures
        0 <= deco_suffix_start(s) <= s.len(),
        forall|j: int| deco_suffix_start(s) <= j < s.len() ==> !is_path_char(s[j]),
        deco_suffix_start(s) > 0 ==> is_path_char(s[deco_suffix_start(s) - 1]),
    decreases s.len(),
{
    if s.len() != 0 && !is_path_char(s.last()) {
        lemma_deco_suffix_start(s.drop_last());
        assert forall|j: int| deco_suffix_start(s) <= j < s.len() implies !is_path_char(s[j]) by {
            if j < s.len() - 1 {
                assert(s.drop_last()[j] == s[j]);
            }
        }
    }
}

/// Strip every leading and trailing non-path character.
fn trim_deco<'a>(s: &'a str) -> (r: &'a str)
    ensures
        r@ == spec_trim_deco(s@),
{
    proof {
        lemma_deco_prefix_end(s@);
        lemma_deco_suffix_start(s@);
    }
    let n = s.unicode_len();
    let mut a: usize = 0;
    while a < n && !path_char(s.get_char(a))
        invariant
            0 <= a <= n,
            n == s@.len(),
            forall|j: int| 0 <= j < a ==> !is_path_char(s@[j]),
        decreases n - a,
    {
        a = a + 1;
    }
    proof {
        if a < deco_prefix_end(s@) {
            assert(!is_path_char(s@[a as int]));
            assert(false);
        }
        if deco_prefix_end(s@) < a {
            assert(!is_path_char(s@[deco_prefix_end(s@)]));
            assert(false);
        }
    }
    let mut b: usize = n;
    while b > a && !path_char(s.get_char(b - 1))
        invariant
            a <= b <= n,
            n == s@.len(),
            a == deco_prefix_end(s@),
            forall|j: int| b <= j < n ==> !is_path_char(s@[j]),
        decreases b,
    {
        b = b - 1;
    }
    proof {
        if b <= a {
            assert(forall|j: int| 0 <= j < s@.len() ==> !is_path_char(s@[j]));
            if deco_suffix_start(s@) > 0 {
                assert(is_path_char(s@[deco_suffix_start(s@) - 1]));
                assert(false);
            }
            assert(s@.subrange(a as int, b as int) =~= spec_trim_deco(s@));
        } else {
            if b < deco_suffix_start(s@) {
                assert(!is_path_char(s@[b - 1]));
                assert(false);
            }
            if deco_suffix_start(s@) < b {
                assert(is_path_char(s@[deco_suffix_start(s@) - 1]));
                assert(false);
            }
        }
    }
    s.substring_char(a, b)
}

/// Whether a trimmed word looks like a filename: it contains a dot and does
/// not start with one.
pub open spec fn spec_is_filename_word(w: Seq<char>) -> bool {
    (exists|i: int| 0 <= i < w.len() && w[i] == '.') && (w.len() == 0 || w[0] != '.')
}

/// The first filename-like word of a line, scanning whitespace-separated
/// words in order and trimming decoration from each.
pub open spec fn spec_line_filename(s: Seq<char>) -> Option<Seq<char>>
    decreases s.len(),
    via spec_line_filename_dec
{
    if s.len() == 0 {
        None
    } else if is_ws_char(s[0]) {
        spec_line_filename(s.drop_first())
    } else {
        let wlen = spec_word_len(s);
        let w = spec_trim_deco(s.take(wlen));
        if spec_is_filename_word(w) {
            Some(w)
        } else {
            spec_line_filename(s.skip(wlen))
        }
    }
}

#[via_fn]
proof fn spec_line_filename_dec(s: Seq<char>) {
    if s.len() != 0 && !is_ws_char(s[0]) {
        lemma_word_len(s);
    }
}

/// Length of the whitespace-free word at the front of `s`.
pub open spec fn spec_word_len(s: Seq<char>) -> int
    decreases s.len(),
{
    if s.len() == 0 {
        0
    } else if is_ws_char(s[0]) {
        0
    } else {
        1 + spec_word_len(s.drop_first())
    }
}

proof fn lemma_word_len(s: Seq<char>)
    ensures
        0 <= spec_word_len(s) <= s.len(),
        forall|j: int| 0 <= j < spec_word_len(s) ==> !is_ws_char(s[j]),
        spec_word_len(s) < s.len() ==> is_ws_char(s[spec_word_len(s)]),
    decreases s.len(),
{
    if s.len() != 0 && !is_ws_char(s[0]) {
        lemma_word_len(s.drop_first());
        assert forall|j: int| 0 <= j < spec_word_len(s) implies !is_ws_char(s[j]) by {
            if j > 0 {
                assert(s.drop_first()[j - 1] == s[j]);
            }
        }
        if spec_word_len(s) < s.len() {
            assert(s.drop_first()[spec_word_len(s) - 1] == s[spec_word_len(s)]);
        }
    }
}

/// The first filename-like word of a line (see `spec_line_filename`).
fn line_filename(line: &str) -> (r: Option<String>)
    ensures
        r matches Some(w) ==> spec_line_filename(line@) == Some(w@),
        r is None <==> spec_line_filename(line@) is None,
{
    let n = line.unicode_len();
    let mut i: usize = 0;
    proof {
        assert(line@.skip(0) =~= line@);
    }
    while i < n
        invariant
            0 <= i <= n,
            n == line@.len(),
            spec_line_filename(line@.skip(i as int)) == spec_line_filename(line@),
        decreases n - i,
    {
        proof {
            assert(line@.skip(i as int)[0] == line@[i as int]);
            assert(line@.skip(i as int).drop_first() =~= line@.skip(i as int + 1));
        }
        if ws_char(line.get_char(i)) {
            i = i + 1;
            continue ;
        }
        // A word starts here: find its end.
        let ghost tail = line@.skip(i as int);
        let mut j: usize = i;
        while j < n && !ws_char(line.get_char(j))
            invariant
                i <= j <= n,
                n == line@.len(),
                forall|k: int| i <= k < j ==> !is_ws_char(line@[k]),
            decreases n - j,
        {
            j = j + 1;
        }
        proof {
            lemma_word_len(tail);
            assert forall|k: int| 0 <= k < j - i implies !is_ws_char(tail[k]) by {
                assert(tail[k] == line@[i + k]);
            }
            if spec_word_len(tail) < j - i {
                assert(is_ws_char(tail[spec_word_len(tail)]));
                assert(!is_ws_char(line@[i + spec_word_len(tail)]));
                assert(false);
            }
            if j - i < spec_word_len(tail) {
                assert(j < n);
                assert(is_ws_char(line@[j as int]));
                assert(tail[j - i] == line@[j as int]);
                assert(false);
            }
            assert(tail.take(j - i) =~= line@.subrange(i as int, j as int));
        }
        let word = line.substring_char(i, j);
        let trimmed = trim_deco(word);
        let has_dot = crate::text::str_contains_char(trimmed, '.');
        let starts_dot = trimmed.unicode_len() > 0 && trimmed.get_char(0) == '.';
        if has_dot && !starts_dot {
            proof {
                assert(spec_is_filename_word(trimmed@));
            }
            return Some(crate::text::owned(trimmed));
        }
        proof {
            assert(!spec_is_filename_word(trimmed@));
            assert(tail.skip(j - i) =~= line@.skip(j as int));
        }
        i = j;
    }
    proof {
        assert(line@.skip(n as int) =~= Seq::<char>::empty());
    }
    None
}

/// The lines of a text, split on newlines as `str::lines` yields them.
pub open spec fn spec_lines(s: Seq<char>) -> Seq<Seq<char>>
    decreases s.len(),
    via spec_lines_dec
{
    if s.len() == 0 {
        Seq::empty()
    } else {
        let f = spec_first_line(s);
        if f.len() == s.len() {
            seq![f]
        } else {
            seq![f] + spec_lines(s.skip(f.len() as int + 1))
        }
    }
}

#[via_fn]
proof fn spec_lines_dec(s: Seq<char>) {
    if s.len() != 0 {
        crate::text::lemma_first_line(s);
    }
}

/// The first filename-like word in the text: lines are scanned in order,
/// and a line is considered only when, after trimming, it mentions a slash
/// or a dot.
pub open spec fn spec_extract_filename(lines: Seq<Seq<char>>) -> Option<Seq<char>>
    decreases lines.len(),
{
    if lines.len() == 0 {
        None
    } else {
        let l = spec_trim(lines[0]);
        let hit = if (exists|i: int| 0 <= i < l.len() && (l[i] == '/' || l[i] == '.')) {
            spec_line_filename(l)
        } else {
            None
        };
        if hit is Some {
            hit
        } else {
            spec_extract_filename(lines.drop_first())
        }
    }
}

/// Extract a filename from tool result text: the first word of the first
/// path-mentioning line that contains a dot and does not start with one,
/// with decoration characters stripped from its ends.
pub fn extract_filename(text: &str) -> (r: Option<String>)
    ensures
        r matches Some(w) ==> spec_extract_filename(spec_lines(text@)) == Some(w@),
        r is None <==> spec_extract_filename(spec_lines(text@)) is None,
{
    let mut rest: &str = text;
    proof {
        crate::text::lemma_first_line(text@);
    }
    loop
        invariant
            spec_extract_filename(spec_lines(rest@)) == spec_extract_filename(spec_lines(text@)),
        ensures
            rest@.len() == 0,
            spec_extract_filename(spec_lines(rest@)) == spec_extract_filename(spec_lines(text@)),
        decreases rest@.len(),
    {
        let n = rest.unicode_len();
        if n == 0 {
            break ;
        }
        proof {
            crate::text::lemma_first_line(rest@);
        }
        let first = crate::text::str_first_line(rest);
        let line = str_trim(first);
        let mentions_path = crate::text::str_contains_char(line, '/')
            || crate::text::str_contains_char(line, '.');
        proof {
            assert(spec_lines(rest@)[0] == spec_first_line(rest@));
        }
        if mentions_path {
            match line_filename(line) {
                Some(found) => {
                    return Some(found);
                },
                None => {},
            }
        }
        let flen = first.unicode_len();
        if flen == n {
            proof {
                assert(spec_lines(rest@) =~= seq![spec_first_line(rest@)]);
                assert(spec_lines(rest@).drop_first() =~= Seq::<Seq<char>>::empty());
                assert(spec_extract_filename(Seq::<Seq<char>>::empty()) is None);
                assert(spec_lines(Seq::<char>::empty()) =~= Seq::<Seq<char>>::empty());
            }
            rest = rest.substring_char(n, n);
            proof {
                assert(rest@ =~= Seq::<char>::empty());
            }
        } else {
            proof {
                assert(spec_lines(rest@) == seq![spec_first_line(rest@)] + spec_lines(
                    rest@.skip(flen as int + 1),
                ));
                assert(spec_lines(rest@).drop_first() =~= spec_lines(rest@.skip(flen as int + 1)));
            }
            let next = rest.substring_char(flen + 1, n);
            proof {
                assert(next@ =~= rest@.skip(flen as int + 1));
            }
            rest = next;
        }
    }
    None
}

} // verus!
