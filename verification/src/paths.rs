//! Normalization of pasted text that may denote a filesystem path: quote
//! stripping, `file://` URL unwrapping, and percent-decoding.

use vstd::prelude::*;
use vstd::string::StringSliceAdditionalSpecFns;
use crate::text::{push_char, spec_trim, str_trim};

verus! {

/// Failures of the clipboard-image capture path.
#[derive(Debug, Clone)]
pub enum PasteImageError {
    ClipboardUnavailable(String),
    NoImage(String),
    EncodeFailed(String),
    IoError(String),
}

impl PasteImageError {
    /// A human-readable description of the error.
    pub fn message(&self) -> (r: String)
        ensures
            self matches PasteImageError::ClipboardUnavailable(m) ==> r@ == "clipboard unavailable: "@
                + m@,
            self matches PasteImageError::NoImage(m) ==> r@ == "no image on clipboard: "@ + m@,
            self matches PasteImageError::EncodeFailed(m) ==> r@ == "could not encode image: "@
                + m@,
            self matches PasteImageError::IoError(m) ==> r@ == "io error: "@ + m@,
    {
        match self {
            PasteImageError::ClipboardUnavailable(m) => {
                let mut s = String::from_str("clipboard unavailable: ");
                s.append(m.as_str());
                s
            },
            PasteImageError::NoImage(m) => {
                let mut s = String::from_str("no image on clipboard: ");
                s.append(m.as_str());
                s
            },
            PasteImageError::EncodeFailed(m) => {
                let mut s = String::from_str("could not encode image: ");
                s.append(m.as_str());
                s
            },
            PasteImageError::IoError(m) => {
                let mut s = String::from_str("io error: ");
                s.append(m.as_str());
                s
            },
        }
    }
}

/// Dimensions of an image captured from the clipboard.
#[derive(Debug, Clone, Copy, PartialEq, Eq, Structural)]
pub struct PastedImageInfo {
    pub width: u32,
    pub height: u32,
}

/// The numeric value of a hexadecimal digit.
pub open spec fn spec_hex_val(b: u8) -> Option<u8> {
    if 48u8 <= b && b <= 57u8 {
        Some((b - 48) as u8)
    } else if 97u8 <= b && b <= 102u8 {
        Some((b - 97 + 10) as u8)
    } else if 65u8 <= b && b <= 70u8 {
        Some((b - 65 + 10) as u8)
    } else {
        None
    }
}

/// Hexadecimal digit value, or `None` for any other byte.
pub fn from_hex(b: u8) -> (r: Option<u8>)
    ensures
        r == spec_hex_val(b),
{
    if 48u8 <= b && b <= 57u8 {
        Some(b - 48u8)
    } else if 97u8 <= b && b <= 102u8 {
        Some(b - 97u8 + 10)
    } else if 65u8 <= b && b <= 70u8 {
        Some(b - 65u8 + 10)
    } else {
        None
    }
}

/// Percent-decoding over raw bytes: a `%` followed by two hexadecimal digits
/// (with at least one byte after them or the digits ending the text) decodes
/// to one byte; every byte is read as a single character.
pub open spec fn spec_percent_decode(bytes: Seq<u8>) -> Seq<char>
    decreases bytes.len(),
{
    if bytes.len() == 0 {
        Seq::empty()
    } else if bytes.len() >= 3 && bytes[0] == 37u8 && spec_hex_val(bytes[1]) is Some
        && spec_hex_val(bytes[2]) is Some {
        let h = spec_hex_val(bytes[1]).unwrap();
        let l = spec_hex_val(bytes[2]).unwrap();
        seq![((h * 16 + l) as u8) as char] + spec_percent_decode(bytes.skip(3))
    } else {
        seq![bytes[0] as char] + spec_percent_decode(bytes.skip(1))
    }
}

/// Decode percent-escapes in the input, byte by byte.
pub fn percent_decode(input: &str) -> (r: String)
    ensures
        r@ == spec_percent_decode(input.spec_bytes()),
{
    let bytes = input.as_bytes();
    let ghost all = input.spec_bytes();
    let n = bytes.len();
    let mut out = String::new();
    let mut i: usize = 0;
    proof {
        assert(all.skip(0) =~= all);
        assert(out@ + spec_percent_decode(all) =~= spec_percent_decode(all));
    }
    while i < n
        invariant
            0 <= i <= n,
            n == all.len(),
            bytes@ == all,
            out@ + spec_percent_decode(all.skip(i as int)) == spec_percent_decode(all),
        decreases n - i,
    {
        proof {
            assert(all.skip(i as int)[0] == all[i as int]);
        }
        if bytes[i] == 37u8 && n - i > 2 {
            let h = from_hex(bytes[i + 1]);
            let l = from_hex(bytes[i + 2]);
            match (h, l) {
                (Some(hv), Some(lv)) => {
                    proof {
                        assert(all.skip(i as int)[1] == all[i as int + 1]);
                        assert(all.skip(i as int)[2] == all[i as int + 2]);
                        assert(all.skip(i as int).skip(3) =~= all.skip(i as int + 3));
                    }
                    push_char(&mut out, (hv * 16 + lv) as char);
                    proof {
                        assert(out@ + spec_percent_decode(all.skip(i as int + 3))
                            =~= spec_percent_decode(all));
                    }
                    i = i + 3;
                    continue ;
                },
                _ => {},
            }
        }
        proof {
            assert(all.skip(i as int).skip(1) =~= all.skip(i as int + 1));
        }
        push_char(&mut out, bytes[i] as char);
        proof {
            assert(out@ + spec_percent_decode(all.skip(i as int + 1)) =~= spec_percent_decode(
                all,
            ));
        }
        i = i + 1;
    }
    proof {
        assert(all.skip(n as int) =~= Seq::<u8>::empty());
        assert(out@ + Seq::<char>::empty() =~= out@);
    }
    out
}

/// Number of leading occurrences of `c`.
pub open spec fn char_prefix_end(s: Seq<char>, c: char) -> int
    decreases s.len(),
{
    if s.len() == 0 {
        0
    } else if s[0] != c {
        0
    } else {
        1 + char_prefix_end(s.drop_first(), c)
    }
}

/// Index after the last character that is not `c` (0 when all are `c`).
pub open spec fn char_suffix_start(s: Seq<char>, c: char) -> int
    decreases s.len(),
{
    if s.len() == 0 {
        0
    } else if s.last() != c {
        s.len() as int
    } else {
        char_suffix_start(s.drop_last(), c)
    }
}

/// What `str::trim_matches(c)` returns.
pub open spec fn spec_trim_char(s: Seq<char>, c: char) -> Seq<char> {
    if char_prefix_end(s, c) <= char_suffix_start(s, c) {
        s.subrange(char_prefix_end(s, c), char_suffix_start(s, c))
    } else {
        Seq::empty()
    }
}

proof fn lemma_char_prefix_end(s: Seq<char>, c: char)
    ensures
        0 <= char_prefix_end(s, c) <= s.len(),
        forall|j: int| 0 <= j < char_prefix_end(s, c) ==> s[j] == c,
        char_prefix_end(s, c) < s.len() ==> s[char_prefix_end(s, c)] != c,
    decreases s.len(),
{
    if s.len() != 0 && s[0] == c {
        lemma_char_prefix_end(s.drop_first(), c);
        assert forall|j: int| 0 <= j < char_prefix_end(s, c) implies s[j] == c by {
            if j > 0 {
                assert(s.drop_first()[j - 1] == s[j]);
            }
        }
    }
}

proof fn lemma_char_suffix_start(s: Seq<char>, c: char)
    ensures
        0 <= char_suffix_start(s, c) <= s.len(),
        forall|j: int| char_suffix_start(s, c) <= j < s.len() ==> s[j] == c,
        char_suffix_start(s, c) > 0 ==> s[char_suffix_start(s, c) - 1] != c,
    decreases s.len(),
{
    if s.len() != 0 && s.last() == c {
        lemma_char_suffix_start(s.drop_last(), c);
        assert forall|j: int| char_suffix_start(s, c) <= j < s.len() implies s[j] == c by {
            if j < s.len() - 1 {
                assert(s.drop_last()[j] == s[j]);
            }
        }
    }
}

/// Strip every leading and trailing occurrence of `c`.
pub fn str_trim_char<'a>(s: &'a str, c: char) -> (r: &'a str)
    ensures
        r@ == spec_trim_char(s@, c),
{
    proof {
        lemma_char_prefix_end(s@, c);
        lemma_char_suffix_start(s@, c);
    }
    let n = s.unicode_len();
    let mut a: usize = 0;
    while a < n && s.get_char(a) == c
        invariant
            0 <= a <= n,
            n == s@.len(),
            forall|j: int| 0 <= j < a ==> s@[j] == c,
        decreases n - a,
    {
        a = a + 1;
    }
    proof {
        if a < char_prefix_end(s@, c) {
            assert(s@[a as int] == c);
            assert(false);
        }
        if char_prefix_end(s@, c) < a {
            assert(s@[char_prefix_end(s@, c)] == c);
            assert(false);
        }
    }
    let mut b: usize = n;
    while b > a && s.get_char(b - 1) == c
        invariant
            a <= b <= n,
            n == s@.len(),
            a == char_prefix_end(s@, c),
            forall|j: int| b <= j < n ==> s@[j] == c,
        decreases b,
    {
        b = b - 1;
    }
    proof {
        if b <= a {
            assert(forall|j: int| 0 <= j < s@.len() ==> s@[j] == c);
            if char_suffix_start(s@, c) > 0 {
                assert(s@[char_suffix_start(s@, c) - 1] != c);
                assert(false);
            }
            assert(char_suffix_start(s@, c) == 0);
            assert(s@.subrange(a as int, b as int) =~= spec_trim_char(s@, c));
        } else {
            if b < char_suffix_start(s@, c) {
                assert(s@[b - 1] == c);
                assert(false);
            }
            if char_suffix_start(s@, c) < b {
                assert(s@[char_suffix_start(s@, c) - 1] != c);
                assert(false);
            }
        }
    }
    s.substring_char(a, b)
}

/// True when `s` starts with `prefix`.
pub fn str_starts_with(s: &str, prefix: &str) -> (r: bool)
    ensures
        r == (s@.len() >= prefix@.len() && s@.take(prefix@.len() as int) == prefix@),
{
    let n = s.unicode_len();
    let m = prefix.unicode_len();
    if n < m {
        return false;
    }
    let mut i: usize = 0;
    while i < m
        invariant
            0 <= i <= m <= n,
            n == s@.len(),
            m == prefix@.len(),
            forall|j: int| 0 <= j < i ==> s@[j] == prefix@[j],
        decreases m - i,
    {
        if s.get_char(i) != prefix.get_char(i) {
            proof {
                assert(s@.take(m as int)[i as int] != prefix@[i as int]);
            }
            return false;
        }
        i = i + 1;
    }
    proof {
        assert(s@.take(m as int) =~= prefix@);
    }
    true
}

/// The normalized form of pasted text that may denote a filesystem path:
/// trim whitespace, strip surrounding quotes, unwrap a `file://` URL (with
/// an optional `localhost/` authority), and percent-decode. Blank input (or
/// input that is blank after quote stripping) denotes no path.
pub open spec fn spec_normalize_pasted_path(s: Seq<char>) -> Option<Seq<char>> {
    let t0 = spec_trim(s);
    if t0.len() == 0 {
        None
    } else {
        let t1 = spec_trim(spec_trim_char(spec_trim_char(t0, '"'), '\''));
        if t1.len() == 0 {
            None
        } else {
            let t2 = if t1.len() >= 7 && t1.take(7) == "file://"@ {
                t1.skip(7)
            } else {
                t1
            };
            let t3 = if t2.len() >= 10 && t2.take(10) == "localhost/"@ {
                t2.skip(10)
            } else {
                t2
            };
            Some(spec_percent_decode(vstd::utf8::encode_utf8(t3)))
        }
    }
}

/// Normalize pasted text that may represent a filesystem path.
pub fn normalize_pasted_path(pasted: &str) -> (r: Option<String>)
    ensures
        r matches Some(p) ==> spec_normalize_pasted_path(pasted@) == Some(p@),
        r is None <==> spec_normalize_pasted_path(pasted@) is None,
{
    let trimmed = str_trim(pasted);
    if trimmed.unicode_len() == 0 {
        return None;
    }
    let unquoted = str_trim(str_trim_char(str_trim_char(trimmed, '"'), '\''));
    if unquoted.unicode_len() == 0 {
        return None;
    }
    proof {
        reveal_strlit("file://");
        reveal_strlit("localhost/");
    }
    let after_scheme: &str = if str_starts_with(unquoted, "file://") {
        let rest = unquoted.substring_char(7, unquoted.unicode_len());
        proof {
            assert(rest@ =~= unquoted@.skip(7));
        }
        rest
    } else {
        unquoted
    };
    let path: &str = if str_starts_with(after_scheme, "localhost/") {
        let rest = after_scheme.substring_char(10, after_scheme.unicode_len());
        proof {
            assert(rest@ =~= after_scheme@.skip(10));
        }
        rest
    } else {
        after_scheme
    };
    Some(percent_decode(path))
}

/// A repository name is safe to remove only when it names a single plain
/// path component: non-empty, no separator, and not a current- or
/// parent-directory reference.
pub open spec fn spec_safe_repo_name(s: Seq<char>) -> bool {
    &&& s.len() > 0
    &&& (forall|i: int| 0 <= i < s.len() ==> s[i] != '/')
    &&& s != "."@
    &&& s != ".."@
}

/// Decide whether a repository name is a single plain path component.
pub fn is_safe_repo_name(name: &str) -> (r: bool)
    ensures
        r == spec_safe_repo_name(name@),
{
    proof {
        reveal_strlit(".");
        reveal_strlit("..");
    }
    let n = name.unicode_len();
    if n == 0 {
        proof {
            assert(name@ =~= Seq::<char>::empty());
        }
        return false;
    }
    if crate::text::str_contains_char(name, '/') {
        return false;
    }
    if n == 1 && name.get_char(0) == '.' {
        proof {
            assert(name@ =~= "."@);
        }
        return false;
    }
    if n == 2 && name.get_char(0) == '.' && name.get_char(1) == '.' {
        proof {
            assert(name@ =~= ".."@);
        }
        return false;
    }
    proof {
        if name@ == "."@ {
            assert(name@.len() == 1 && name@[0] == '.');
            assert(false);
        }
        if name@ == ".."@ {
            assert(name@.len() == 2 && name@[0] == '.' && name@[1] == '.');
            assert(false);
        }
    }
    true
}

} // verus!
