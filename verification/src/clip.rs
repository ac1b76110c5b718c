//! Byte-budgeted truncation of strings at character boundaries, with the
//! lemmas connecting character prefixes to UTF-8 byte prefixes.

use vstd::prelude::*;
use vstd::string::StringSliceAdditionalSpecFns;
use vstd::utf8::{
    encode_utf8, decode_utf8, valid_utf8, is_char_boundary, encode_scalar,
    encode_utf8_valid_utf8, encode_utf8_decode_utf8, decode_utf8_encode_utf8, valid_utf8_split,
    decode_utf8_split, is_char_boundary_start_end_of_seq, encode_utf8_first_scalar,
};

verus! {

/// Byte length of the UTF-8 encoding of a character sequence.
pub open spec fn byte_len(s: Seq<char>) -> int {
    encode_utf8(s).len() as int
}

/// The byte length of a string slice, exactly (`str::as_bytes` plus the
/// slice-length axiom, so the length is also known to fit in `usize`).
pub fn str_byte_len(s: &str) -> (r: usize)
    ensures
        r == byte_len(s@),
{
    let b = s.as_bytes();
    proof {
        vstd::slice::axiom_spec_len(b);
    }
    b.len()
}

/// The longest prefix of `s` whose UTF-8 encoding is at most `maxb` bytes.
pub open spec fn clip_chars(s: Seq<char>, maxb: int) -> Seq<char>
    decreases s.len(),
{
    if byte_len(s) <= maxb {
        s
    } else if s.len() == 0 {
        s
    } else {
        clip_chars(s.drop_last(), maxb)
    }
}

/// UTF-8 encoding distributes over concatenation.
pub proof fn lemma_encode_concat(a: Seq<char>, b: Seq<char>)
    ensures
        encode_utf8(a + b) == encode_utf8(a) + encode_utf8(b),
    decreases a.len(),
{
    if a.len() == 0 {
        assert(a + b =~= b);
        assert(encode_utf8(a) + encode_utf8(b) =~= encode_utf8(b));
    } else {
        assert((a + b)[0] == a[0]);
        assert((a + b).drop_first() =~= a.drop_first() + b);
        lemma_encode_concat(a.drop_first(), b);
        assert(encode_scalar(a[0] as u32) + (encode_utf8(a.drop_first()) + encode_utf8(b)) =~= (
        encode_scalar(a[0] as u32) + encode_utf8(a.drop_first())) + encode_utf8(b));
    }
}

/// Every character's encoding takes between one and four bytes.
pub proof fn lemma_encode_scalar_len(c: char)
    ensures
        1 <= encode_scalar(c as u32).len() <= 4,
{
}

/// The encoding of a one-character sequence is that character's encoding.
pub proof fn lemma_encode_single(c: char)
    ensures
        encode_utf8(seq![c]) == encode_scalar(c as u32),
{
    reveal_with_fuel(encode_utf8, 2);
    assert(seq![c].drop_first() =~= Seq::<char>::empty());
    assert(encode_utf8(seq![c]) =~= encode_scalar(c as u32));
}

/// A UTF-8 encoding is never longer than four bytes per character.
pub proof fn lemma_encode_len_bound(s: Seq<char>)
    ensures
        s.len() <= byte_len(s) <= 4 * s.len(),
    decreases s.len(),
{
    if s.len() > 0 {
        lemma_encode_scalar_len(s[0]);
        lemma_encode_len_bound(s.drop_first());
    }
}

/// Encoded byte length is monotone in the character-prefix length.
pub proof fn lemma_byte_len_mono(s: Seq<char>, m: int, n: int)
    requires
        0 <= m <= n <= s.len(),
    ensures
        byte_len(s.take(m)) <= byte_len(s.take(n)),
{
    assert(s.take(n) =~= s.take(m) + s.take(n).skip(m));
    lemma_encode_concat(s.take(m), s.take(n).skip(m));
}

/// The clipped sequence is a maximal character prefix within the byte budget.
pub proof fn lemma_clip_chars_props(s: Seq<char>, maxb: int)
    ensures
        clip_chars(s, maxb).len() <= s.len(),
        clip_chars(s, maxb) == s.take(clip_chars(s, maxb).len() as int),
        maxb >= 0 ==> byte_len(clip_chars(s, maxb)) <= maxb,
        byte_len(s) <= maxb ==> clip_chars(s, maxb) == s,
        clip_chars(s, maxb).len() < s.len() ==> byte_len(
            s.take(clip_chars(s, maxb).len() as int + 1),
        ) > maxb,
    decreases s.len(),
{
    let c = clip_chars(s, maxb);
    if byte_len(s) <= maxb {
        assert(c =~= s.take(c.len() as int));
    } else if s.len() == 0 {
        assert(c =~= s.take(c.len() as int));
    } else {
        let dl = s.drop_last();
        lemma_clip_chars_props(dl, maxb);
        assert(dl =~= s.take(s.len() - 1));
        assert(dl.take(c.len() as int) =~= s.take(c.len() as int));
        if c.len() < dl.len() {
            assert(dl.take(c.len() as int + 1) =~= s.take(c.len() as int + 1));
        } else {
            // c is all of s.drop_last(); the next character is s's last one.
            assert(s.take(c.len() as int + 1) =~= s);
        }
    }
}

/// Every byte-level character boundary in an encoding corresponds to a
/// character-prefix length.
pub proof fn lemma_boundary_is_char_prefix(s: Seq<char>, b: int) -> (n: int)
    requires
        is_char_boundary(encode_utf8(s), b),
        0 <= b <= byte_len(s),
    ensures
        0 <= n <= s.len(),
        byte_len(s.take(n)) == b,
        decode_utf8(encode_utf8(s).subrange(0, b)) == s.take(n),
{
    let bytes = encode_utf8(s);
    encode_utf8_valid_utf8(s);
    valid_utf8_split(bytes, b);
    decode_utf8_split(bytes, b);
    encode_utf8_decode_utf8(s);
    let b1 = bytes.subrange(0, b);
    let b2 = bytes.subrange(b, bytes.len() as int);
    let n = decode_utf8(b1).len() as int;
    decode_utf8_encode_utf8(b1);
    assert(s == decode_utf8(b1) + decode_utf8(b2));
    assert(s.take(n) =~= decode_utf8(b1));
    n
}

/// Every character-prefix length corresponds to a byte-level character
/// boundary in the encoding.
pub proof fn lemma_char_prefix_is_boundary(s: Seq<char>, n: int)
    requires
        0 <= n <= s.len(),
    ensures
        is_char_boundary(encode_utf8(s), byte_len(s.take(n))),
    decreases n,
{
    encode_utf8_valid_utf8(s);
    if n == 0 {
        assert(s.take(0) =~= Seq::<char>::empty());
        is_char_boundary_start_end_of_seq(encode_utf8(s));
    } else {
        let bytes = encode_utf8(s);
        encode_utf8_first_scalar(s);
        let first_len = encode_scalar(s[0] as u32).len() as int;
        let rest = s.drop_first();
        assert(vstd::utf8::pop_first_scalar(bytes) =~= encode_utf8(rest));
        lemma_char_prefix_is_boundary(rest, n - 1);
        assert(s.take(n) =~= seq![s[0]] + rest.take(n - 1));
        lemma_encode_concat(seq![s[0]], rest.take(n - 1));
        lemma_encode_single(s[0]);
        assert(byte_len(s.take(n)) == first_len + byte_len(rest.take(n - 1)));
        lemma_encode_scalar_len(s[0]);
    }
}

/// Truncate a string to at most `max_bytes` UTF-8 bytes, cutting only at a
/// character boundary; a string already within the budget is unchanged.
pub fn truncate_to_char_boundary(s: &mut String, max_bytes: usize)
    ensures
        final(s)@ == clip_chars(old(s)@, max_bytes as int),
{
    proof {
        encode_utf8_valid_utf8(s@);
        lemma_clip_chars_props(s@, max_bytes as int);
    }
    let total = str_byte_len(s.as_str());
    if total <= max_bytes {
        return ;
    }
    let ghost chars = s@;
    let ghost bytes = encode_utf8(s@);
    let mut b: usize = max_bytes;
    loop
        invariant
            0 <= b <= max_bytes,
            max_bytes < bytes.len(),
            bytes == encode_utf8(chars),
            s@ == chars,
            valid_utf8(bytes),
            forall|k: int| b < k <= max_bytes ==> !is_char_boundary(bytes, k),
        ensures
            is_char_boundary(bytes, b as int),
            forall|k: int| b < k <= max_bytes ==> !is_char_boundary(bytes, k),
            b <= max_bytes,
            s@ == chars,
        decreases b,
    {
        if s.as_str().is_char_boundary(b) {
            break ;
        }
        proof {
            is_char_boundary_start_end_of_seq(bytes);
            assert(b != 0);
        }
        b = b - 1;
    }
    let ghost n = lemma_boundary_is_char_prefix(chars, b as int);
    let pair = s.as_str().split_at(b);
    let prefix = pair.0;
    proof {
        // The split prefix decodes to the first n characters.
        encode_utf8_valid_utf8(chars);
        valid_utf8_split(bytes, b as int);
        decode_utf8_encode_utf8(bytes.subrange(0, b as int));
        encode_utf8_decode_utf8(prefix@);
        assert(prefix.spec_bytes() == bytes.subrange(0, b as int));
        assert(decode_utf8(encode_utf8(prefix@)) == decode_utf8(bytes.subrange(0, b as int)));
        assert(prefix@ == chars.take(n));
        // chars.take(n) is exactly the clipped sequence: both are maximal
        // prefixes within the byte budget.
        let c = clip_chars(chars, max_bytes as int);
        let k = c.len() as int;
        if n < k {
            lemma_byte_len_mono(chars, n + 1, k);
            lemma_char_prefix_is_boundary(chars, n + 1);
            let bn1 = byte_len(chars.take(n + 1));
            assert(chars.take(n + 1) =~= chars.take(n) + seq![chars[n]]);
            lemma_encode_concat(chars.take(n), seq![chars[n]]);
            lemma_encode_single(chars[n]);
            lemma_encode_scalar_len(chars[n]);
            assert(bn1 > b);
            assert(bn1 <= max_bytes);
            assert(false);
        }
        if k < n {
            lemma_byte_len_mono(chars, k + 1, n);
            assert(byte_len(chars.take(k + 1)) > max_bytes);
            assert(byte_len(chars.take(n)) == b);
            assert(false);
        }
        assert(prefix@ == c);
    }
    *s = prefix.to_owned();
}

} // verus!
