//! Character classification and small string operations used across the
//! library: whitespace and control-character tests, trimming, first-line
//! extraction, and appending single characters to owned strings.

use vstd::prelude::*;

verus! {

/// The Unicode White_Space code points, the set `char::is_whitespace` tests.
pub open spec fn is_ws_char(c: char) -> bool {
    ||| c == '\u{0009}'
    ||| c == '\u{000A}'
    ||| c == '\u{000B}'
    ||| c == '\u{000C}'
    ||| c == '\u{000D}'
    ||| c == ' '
    ||| c == '\u{0085}'
    ||| c == '\u{00A0}'
    ||| c == '\u{1680}'
    ||| ('\u{2000}' <= c && c <= '\u{200A}')
    ||| c == '\u{2028}'
    ||| c == '\u{2029}'
    ||| c == '\u{202F}'
    ||| c == '\u{205F}'
    ||| c == '\u{3000}'
}

/// Runtime test matching `is_ws_char`.
pub fn ws_char(c: char) -> (r: bool)
    ensures
        r == is_ws_char(c),
{
    c == '\u{0009}' || c == '\u{000A}' || c == '\u{000B}' || c == '\u{000C}' || c == '\u{000D}'
        || c == ' ' || c == '\u{0085}' || c == '\u{00A0}' || c == '\u{1680}' || ('\u{2000}' <= c
        && c <= '\u{200A}') || c == '\u{2028}' || c == '\u{2029}' || c == '\u{202F}' || c
        == '\u{205F}' || c == '\u{3000}'
}

/// The code points `char::is_control` tests: C0 and C1 controls.
pub open spec fn is_control_char(c: char) -> bool {
    c <= '\u{001F}' || ('\u{007F}' <= c && c <= '\u{009F}')
}

/// Runtime test matching `is_control_char`.
pub fn control_char(c: char) -> (r: bool)
    ensures
        r == is_control_char(c),
{
    c <= '\u{001F}' || ('\u{007F}' <= c && c <= '\u{009F}')
}

/// True when every character is whitespace (what "empty after trim" means).
pub open spec fn is_blank(s: Seq<char>) -> bool {
    forall|i: int| 0 <= i < s.len() ==> is_ws_char(s[i])
}

/// Runtime test matching `is_blank`.
pub fn str_is_blank(s: &str) -> (r: bool)
    ensures
        r == is_blank(s@),
{
    let n = s.unicode_len();
    let mut i: usize = 0;
    while i < n
        invariant
            0 <= i <= n,
            n == s@.len(),
            forall|j: int| 0 <= j < i ==> is_ws_char(s@[j]),
        decreases n - i,
    {
        if !ws_char(s.get_char(i)) {
            return false;
        }
        i = i + 1;
    }
    true
}

/// Number of leading whitespace characters.
pub open spec fn ws_prefix_end(s: Seq<char>) -> int
    decreases s.len(),
{
    if s.len() == 0 {
        0
    } else if !is_ws_char(s[0]) {
        0
    } else {
        1 + ws_prefix_end(s.drop_first())
    }
}

/// Index after the last non-whitespace character (0 when all whitespace).
pub open spec fn ws_suffix_start(s: Seq<char>) -> int
    decreases s.len(),
{
    if s.len() == 0 {
        0
    } else if !is_ws_char(s.last()) {
        s.len() as int
    } else {
        ws_suffix_start(s.drop_last())
    }
}

/// What `str::trim` returns: the characters with leading and trailing
/// whitespace removed.
pub open spec fn spec_trim(s: Seq<char>) -> Seq<char> {
    if ws_prefix_end(s) <= ws_suffix_start(s) {
        s.subrange(ws_prefix_end(s), ws_suffix_start(s))
    } else {
        Seq::empty()
    }
}

pub proof fn lemma_ws_prefix_end(s: Seq<char>)
    ensures
        0 <= ws_prefix_end(s) <= s.len(),
        forall|j: int| 0 <= j < ws_prefix_end(s) ==> is_ws_char(s[j]),
        ws_prefix_end(s) < s.len() ==> !is_ws_char(s[ws_prefix_end(s)]),
    decreases s.len(),
{
    if s.len() != 0 && is_ws_char(s[0]) {
        lemma_ws_prefix_end(s.drop_first());
        assert forall|j: int| 0 <= j < ws_prefix_end(s) implies is_ws_char(s[j]) by {
            if j > 0 {
                assert(s.drop_first()[j - 1] == s[j]);
            }
        }
    }
}

pub proof fn lemma_ws_suffix_start(s: Seq<char>)
    ensures
        0 <= ws_suffix_start(s) <= s.len(),
        forall|j: int| ws_suffix_start(s) <= j < s.len() ==> is_ws_char(s[j]),
        ws_suffix_start(s) > 0 ==> !is_ws_char(s[ws_suffix_start(s) - 1]),
    decreases s.len(),
{
    if s.len() != 0 && is_ws_char(s.last()) {
        lemma_ws_suffix_start(s.drop_last());
        assert forall|j: int| ws_suffix_start(s) <= j < s.len() implies is_ws_char(s[j]) by {
            if j < s.len() - 1 {
                assert(s.drop_last()[j] == s[j]);
            }
        }
    }
}

/// When some character is not whitespace, the trim bounds are ordered.
pub proof fn lemma_trim_bounds(s: Seq<char>)
    ensures
        is_blank(s) ==> spec_trim(s) == Seq::<char>::empty(),
        !is_blank(s) ==> ws_prefix_end(s) < ws_suffix_start(s),
{
    lemma_ws_prefix_end(s);
    lemma_ws_suffix_start(s);
    if is_blank(s) {
        if ws_prefix_end(s) <= ws_suffix_start(s) {
            if ws_prefix_end(s) < s.len() {
                assert(is_ws_char(s[ws_prefix_end(s)]));
                assert(false);
            }
            assert(spec_trim(s) =~= Seq::<char>::empty());
        }
    } else {
        let k = choose|k: int| 0 <= k < s.len() && !is_ws_char(s[k]);
        assert(ws_prefix_end(s) <= k);
        assert(k < ws_suffix_start(s));
    }
}

/// `str::trim`: remove leading and trailing whitespace.
pub fn str_trim<'a>(s: &'a str) -> (r: &'a str)
    ensures
        r@ == spec_trim(s@),
{
    proof {
        lemma_ws_prefix_end(s@);
        lemma_ws_suffix_start(s@);
        lemma_trim_bounds(s@);
    }
    let n = s.unicode_len();
    let mut a: usize = 0;
    while a < n && ws_char(s.get_char(a))
        invariant
            0 <= a <= n,
            n == s@.len(),
            forall|j: int| 0 <= j < a ==> is_ws_char(s@[j]),
        decreases n - a,
    {
        a = a + 1;
    }
    // a is the first non-whitespace index, so it equals ws_prefix_end.
    proof {
        if a < ws_prefix_end(s@) {
            assert(is_ws_char(s@[a as int]));
            assert(false);
        }
        if ws_prefix_end(s@) < a {
            assert(is_ws_char(s@[ws_prefix_end(s@)]));
            assert(false);
        }
    }
    let mut b: usize = n;
    while b > a && ws_char(s.get_char(b - 1))
        invariant
            a <= b <= n,
            n == s@.len(),
            a == ws_prefix_end(s@),
            forall|j: int| b <= j < n ==> is_ws_char(s@[j]),
        decreases b,
    {
        b = b - 1;
    }
    proof {
        if is_blank(s@) {
            assert(b <= a);
            assert(s@.subrange(a as int, b as int) =~= spec_trim(s@));
        } else {
            if b < ws_suffix_start(s@) {
                assert(b > a);
                assert(is_ws_char(s@[b - 1]));
                assert(false);
            }
            if ws_suffix_start(s@) < b {
                assert(is_ws_char(s@[ws_suffix_start(s@) - 1]));
                assert(false);
            }
        }
    }
    s.substring_char(a, b)
}

/// Characters before the first newline (the whole text when there is none).
pub open spec fn spec_first_line(s: Seq<char>) -> Seq<char>
    decreases s.len(),
{
    if s.len() == 0 {
        s
    } else if s[0] == '\n' {
        Seq::empty()
    } else {
        seq![s[0]] + spec_first_line(s.drop_first())
    }
}

pub proof fn lemma_first_line(s: Seq<char>)
    ensures
        spec_first_line(s).len() <= s.len(),
        spec_first_line(s) == s.subrange(0, spec_first_line(s).len() as int),
        forall|j: int| 0 <= j < spec_first_line(s).len() ==> s[j] != '\n',
        spec_first_line(s).len() < s.len() ==> s[spec_first_line(s).len() as int] == '\n',
    decreases s.len(),
{
    if s.len() != 0 && s[0] != '\n' {
        lemma_first_line(s.drop_first());
        let f = spec_first_line(s);
        assert(f =~= s.subrange(0, f.len() as int));
        assert forall|j: int| 0 <= j < f.len() implies s[j] != '\n' by {
            if j > 0 {
                assert(s.drop_first()[j - 1] == s[j]);
            }
        }
        if f.len() < s.len() {
            assert(s.drop_first()[f.len() - 1] == s[f.len() as int]);
        }
    } else {
        assert(spec_first_line(s) =~= s.subrange(0, spec_first_line(s).len() as int));
    }
}

/// First line of a string, as `str::lines().next()` yields it (without the
/// trailing newline; the whole text when it has no newline).
pub fn str_first_line<'a>(s: &'a str) -> (r: &'a str)
    ensures
        r@ == spec_first_line(s@),
{
    proof {
        lemma_first_line(s@);
    }
    let n = s.unicode_len();
    let mut i: usize = 0;
    while i < n && s.get_char(i) != '\n'
        invariant
            0 <= i <= n,
            n == s@.len(),
            forall|j: int| 0 <= j < i ==> s@[j] != '\n',
        decreases n - i,
    {
        i = i + 1;
    }
    proof {
        let f = spec_first_line(s@);
        if i < f.len() {
            assert(s@[i as int] == '\n');
            assert(false);
        }
        if f.len() < i {
            assert(s@[f.len() as int] != '\n');
            assert(false);
        }
    }
    s.substring_char(0, i)
}

/// True when the string contains the given character.
pub fn str_contains_char(s: &str, c: char) -> (r: bool)
    ensures
        r == exists|i: int| 0 <= i < s@.len() && s@[i] == c,
{
    let n = s.unicode_len();
    let mut i: usize = 0;
    while i < n
        invariant
            0 <= i <= n,
            n == s@.len(),
            forall|j: int| 0 <= j < i ==> s@[j] != c,
        decreases n - i,
    {
        if s.get_char(i) == c {
            return true;
        }
        i = i + 1;
    }
    false
}

/// The views of a sequence of owned strings.
pub open spec fn views_of(parts: Seq<String>) -> Seq<Seq<char>> {
    parts.map_values(|p: String| p@)
}

/// Pushing a string extends the sequence of views by the string's view.
pub proof fn lemma_views_push(v: Seq<String>, x: String)
    ensures
        views_of(v.push(x)) == views_of(v).push(x@),
{
    assert(views_of(v.push(x)) =~= views_of(v).push(x@));
}

/// `parts` joined with `sep` between consecutive elements.
pub open spec fn spec_join(parts: Seq<Seq<char>>, sep: Seq<char>) -> Seq<char>
    decreases parts.len(),
{
    if parts.len() == 0 {
        Seq::empty()
    } else if parts.len() == 1 {
        parts[0]
    } else {
        parts[0] + sep + spec_join(parts.drop_first(), sep)
    }
}

/// Appending one more part extends the join by a separator and the part.
pub proof fn lemma_join_push(parts: Seq<Seq<char>>, sep: Seq<char>, x: Seq<char>)
    ensures
        parts.len() == 0 ==> spec_join(parts.push(x), sep) == x,
        parts.len() > 0 ==> spec_join(parts.push(x), sep) == spec_join(parts, sep) + sep + x,
    decreases parts.len(),
{
    if parts.len() == 0 {
        assert(spec_join(parts.push(x), sep) == parts.push(x)[0]);
        assert(parts.push(x)[0] == x);
    } else {
        let p = parts.push(x);
        assert(p.drop_first() =~= parts.drop_first().push(x));
        lemma_join_push(parts.drop_first(), sep, x);
        if parts.len() == 1 {
            assert(spec_join(p, sep) == p[0] + sep + spec_join(p.drop_first(), sep));
            assert(spec_join(p.drop_first(), sep) == x);
        } else {
            assert(spec_join(p, sep) == p[0] + sep + spec_join(p.drop_first(), sep));
            assert(p[0] + sep + (spec_join(parts.drop_first(), sep) + sep + x) =~= (p[0] + sep
                + spec_join(parts.drop_first(), sep)) + sep + x);
        }
    }
}

/// A join can be split at any interior element boundary.
pub proof fn lemma_join_split(parts: Seq<Seq<char>>, sep: Seq<char>, k: int)
    requires
        0 < k < parts.len(),
    ensures
        spec_join(parts, sep) == spec_join(parts.take(k), sep) + sep + spec_join(
            parts.skip(k),
            sep,
        ),
    decreases k,
{
    if k == 1 {
        assert(parts.take(1) =~= seq![parts[0]]);
        assert(parts.skip(1) =~= parts.drop_first());
        assert(spec_join(parts.take(1), sep) == parts[0]);
    } else {
        lemma_join_split(parts.drop_first(), sep, k - 1);
        assert(parts.drop_first().take(k - 1) =~= parts.take(k).drop_first());
        assert(parts.drop_first().skip(k - 1) =~= parts.skip(k));
        assert(spec_join(parts.take(k), sep) == parts[0] + sep + spec_join(
            parts.take(k).drop_first(),
            sep,
        ));
        assert(parts[0] + sep + (spec_join(parts.take(k).drop_first(), sep) + sep + spec_join(
            parts.skip(k),
            sep,
        )) =~= (parts[0] + sep + spec_join(parts.take(k).drop_first(), sep)) + sep + spec_join(
            parts.skip(k),
            sep,
        ));
    }
}

/// Join a list of strings with a separator.
pub fn join_strings(parts: &Vec<String>, sep: &str) -> (r: String)
    ensures
        r@ == spec_join(views_of(parts@), sep@),
{
    let mut out = String::new();
    let n = parts.len();
    let mut i: usize = 0;
    while i < n
        invariant
            0 <= i <= n,
            n == parts@.len(),
            out@ == spec_join(views_of(parts@.take(i as int)), sep@),
        decreases n - i,
    {
        if i > 0 {
            out.append(sep);
        }
        out.append(parts[i].as_str());
        proof {
            let prev = views_of(parts@.take(i as int));
            lemma_join_push(prev, sep@, parts@[i as int]@);
            assert(views_of(parts@.take(i + 1)) =~= prev.push(parts@[i as int]@));
        }
        i = i + 1;
    }
    proof {
        assert(parts@.take(n as int) =~= parts@);
    }
    out
}

/// ASCII lower-casing, character by character.
pub open spec fn spec_ascii_lower_char(c: char) -> char {
    if 'A' <= c && c <= 'Z' {
        (((c as u8) + 32) as u8) as char
    } else {
        c
    }
}

pub open spec fn spec_ascii_lower(s: Seq<char>) -> Seq<char> {
    s.map_values(|c: char| spec_ascii_lower_char(c))
}

/// Lower-case the ASCII letters of a string.
pub fn ascii_lower(s: &str) -> (r: String)
    ensures
        r@ == spec_ascii_lower(s@),
{
    let n = s.unicode_len();
    let mut out = String::new();
    let mut i: usize = 0;
    while i < n
        invariant
            0 <= i <= n,
            n == s@.len(),
            out@ == spec_ascii_lower(s@.take(i as int)),
        decreases n - i,
    {
        let c = s.get_char(i);
        let mapped: char = if 'A' <= c && c <= 'Z' {
            ((c as u8) + 32) as char
        } else {
            c
        };
        crate::text::push_char(&mut out, mapped);
        proof {
            assert(spec_ascii_lower(s@.take(i + 1)) =~= spec_ascii_lower(s@.take(i as int)).push(
                spec_ascii_lower_char(s@[i as int]),
            ));
        }
        i = i + 1;
    }
    proof {
        assert(s@.take(n as int) =~= s@);
    }
    out
}

/// True when `needle` occurs contiguously inside `haystack`.
pub open spec fn spec_contains_sub(haystack: Seq<char>, needle: Seq<char>) -> bool {
    exists|i: int|
        0 <= i <= haystack.len() - needle.len() && #[trigger] haystack.subrange(
            i,
            i + needle.len(),
        ) == needle
}

/// Substring search matching `spec_contains_sub`.
pub fn str_contains_sub(haystack: &str, needle: &str) -> (r: bool)
    ensures
        r == spec_contains_sub(haystack@, needle@),
{
    let hn = haystack.unicode_len();
    let nn = needle.unicode_len();
    if nn > hn {
        return false;
    }
    let mut i: usize = 0;
    while i <= hn - nn
        invariant
            0 <= i <= hn - nn + 1,
            nn <= hn,
            hn == haystack@.len(),
            nn == needle@.len(),
            forall|k: int|
                0 <= k < i ==> #[trigger] haystack@.subrange(k, k + needle@.len()) != needle@,
        decreases hn - nn + 1 - i,
    {
        let mut j: usize = 0;
        loop
            invariant
                0 <= j <= nn,
                i + nn <= hn,
                hn == haystack@.len(),
                nn == needle@.len(),
                forall|q: int| 0 <= q < j ==> haystack@[i + q] == needle@[q],
            ensures
                j == nn ==> forall|q: int| 0 <= q < nn ==> haystack@[i + q] == needle@[q],
                j < nn ==> haystack@[i + j] != needle@[j as int],
            decreases nn - j,
        {
            if j >= nn {
                break ;
            }
            if haystack.get_char(i + j) != needle.get_char(j) {
                break ;
            }
            j = j + 1;
        }
        if j == nn {
            proof {
                assert(haystack@.subrange(i as int, i + needle@.len()) =~= needle@);
            }
            return true;
        }
        proof {
            assert(haystack@.subrange(i as int, i + needle@.len())[j as int]
                != needle@[j as int]);
        }
        i = i + 1;
    }
    proof {
        assert forall|k: int|
            0 <= k <= haystack@.len() - needle@.len() implies #[trigger] haystack@.subrange(
            k,
            k + needle@.len(),
        ) != needle@ by {
            assert(k < i);
        }
    }
    false
}

/// Relies on `String::push`: appends one character to the string.
#[verifier::external_body]
pub fn push_char(s: &mut String, c: char)
    ensures
        final(s)@ == old(s)@.push(c),
{
    s.push(c)
}

/// A fresh owned copy of a string slice.
pub fn owned(s: &str) -> (r: String)
    ensures
        r@ == s@,
{
    String::from_str(s)
}

} // verus!
