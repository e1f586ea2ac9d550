//! Text taken out of byte fields: decoding, trimming and hexadecimal rendering.

use vstd::prelude::*;
use vstd::slice::slice_subrange;
use vstd::string::StrSliceExecFns;
use vstd::utf8::{
    decode_utf8, encode_utf8, encode_utf8_decode_utf8, encode_utf8_valid_utf8, is_ascii_chars,
    is_ascii_chars_encode_utf8, valid_utf8,
};

verus! {

/// What lossy UTF-8 decoding makes of a byte string: the text it encodes, with
/// U+FFFD in place of each malformed sequence.
pub uninterp spec fn utf8_lossy(bytes: Seq<u8>) -> Seq<char>;

/// Whether a character has the Unicode property White_Space: the controls
/// from tab to carriage return, the space, next line, the no-break space, the
/// Ogham space mark, the spaces from en quad to hair space, the line and the
/// paragraph separator, the narrow no-break space, the medium mathematical
/// space and the ideographic space.
pub open spec fn white_space(c: char) -> bool {
    ||| '\u{09}' <= c <= '\u{0D}'
    ||| c == '\u{20}'
    ||| c == '\u{85}'
    ||| c == '\u{A0}'
    ||| c == '\u{1680}'
    ||| '\u{2000}' <= c <= '\u{200A}'
    ||| c == '\u{2028}'
    ||| c == '\u{2029}'
    ||| c == '\u{202F}'
    ||| c == '\u{205F}'
    ||| c == '\u{3000}'
}

/// The lower-case form of a text.
pub uninterp spec fn lowercased(s: Seq<char>) -> Seq<char>;

/// `String::from_utf8_lossy`: the result is a function of the bytes alone, and
/// for well-formed UTF-8 it is the text that the bytes encode.
#[verifier::external_body]
pub(crate) fn decode_utf8_lossy(bytes: &[u8]) -> (s: String)
    ensures
        s@ == utf8_lossy(bytes@),
        valid_utf8(bytes@) ==> s@ == decode_utf8(bytes@),
{
    String::from_utf8_lossy(bytes).into_owned()
}

/// `char::is_whitespace`: true exactly for the characters with the Unicode
/// property White_Space.
#[verifier::external_body]
pub(crate) fn is_whitespace(c: char) -> (b: bool)
    ensures
        b == white_space(c),
{
    c.is_whitespace()
}

/// `str::to_lowercase`: the result is a function of the text alone.
#[verifier::external_body]
pub(crate) fn to_lowercase(s: &str) -> (l: String)
    ensures
        l@ == lowercased(s@),
{
    s.to_lowercase()
}

/// `String::push`: the character is appended at the end.
#[verifier::external_body]
pub(crate) fn push_char(s: &mut String, c: char)
    ensures
        final(s)@ == old(s)@.push(c),
{
    s.push(c)
}

/// Whether every byte is an ASCII character.
pub open spec fn is_ascii_bytes(bytes: Seq<u8>) -> bool {
    forall|i: int| 0 <= i < bytes.len() ==> #[trigger] bytes[i] < 128
}

/// The text of ASCII bytes: each byte as the character with its number.
pub open spec fn ascii_text(bytes: Seq<u8>) -> Seq<char> {
    Seq::new(bytes.len(), |i: int| bytes[i] as char)
}

/// ASCII bytes are well-formed UTF-8 and encode their own characters, so
/// lossy decoding replaces nothing in them.
pub proof fn lemma_ascii_decodes_to_itself(bytes: Seq<u8>)
    requires
        is_ascii_bytes(bytes),
    ensures
        valid_utf8(bytes),
        decode_utf8(bytes) == ascii_text(bytes),
{
    let chars = ascii_text(bytes);
    assert(is_ascii_chars(chars)) by {
        assert forall|i: int| 0 <= i < chars.len() implies '\0' <= #[trigger] chars[i]
            <= '\u{7f}' by {
            assert(bytes[i] < 128);
        }
    }
    is_ascii_chars_encode_utf8(chars);
    assert(encode_utf8(chars) =~= bytes) by {
        assert forall|i: int| 0 <= i < bytes.len() implies encode_utf8(chars)[i] == bytes[i] by {
            assert(bytes[i] < 128);
            assert(chars[i] as u8 == encode_utf8(chars)[i]);
        }
    }
    encode_utf8_valid_utf8(chars);
    encode_utf8_decode_utf8(chars);
}

/// `s` without its longest prefix of elements that satisfy `p`.
pub open spec fn strip_leading<T>(s: Seq<T>, p: spec_fn(T) -> bool) -> Seq<T>
    decreases s.len(),
{
    if s.len() > 0 && p(s[0]) {
        strip_leading(s.drop_first(), p)
    } else {
        s
    }
}

/// `s` without its longest suffix of elements that satisfy `p`.
pub open spec fn strip_trailing<T>(s: Seq<T>, p: spec_fn(T) -> bool) -> Seq<T>
    decreases s.len(),
{
    if s.len() > 0 && p(s.last()) {
        strip_trailing(s.drop_last(), p)
    } else {
        s
    }
}

/// `s` with the elements that satisfy `p` removed from both ends.
pub open spec fn strip_both<T>(s: Seq<T>, p: spec_fn(T) -> bool) -> Seq<T> {
    strip_trailing(strip_leading(s, p), p)
}

/// The test for a NUL byte.
pub open spec fn nul_byte() -> spec_fn(u8) -> bool {
    |b: u8| b == 0
}

/// The test for a whitespace character.
pub open spec fn whitespace_char() -> spec_fn(char) -> bool {
    |c: char| white_space(c)
}

/// A byte string without the NUL bytes at its two ends.
pub open spec fn trim_nul_spec(b: Seq<u8>) -> Seq<u8> {
    strip_both(b, nul_byte())
}

/// A text without the whitespace at its two ends.
pub open spec fn trim_whitespace_spec(s: Seq<char>) -> Seq<char> {
    strip_both(s, whitespace_char())
}

/// If the first `i` elements satisfy `p` and the next one does not, stripping
/// the front leaves what starts at `i`.
pub proof fn lemma_strip_leading_at<T>(s: Seq<T>, p: spec_fn(T) -> bool, i: int)
    requires
        0 <= i <= s.len(),
        forall|j: int| 0 <= j < i ==> p(#[trigger] s[j]),
        i == s.len() || !p(s[i]),
    ensures
        strip_leading(s, p) == s.subrange(i, s.len() as int),
    decreases i,
{
    if i == 0 {
        assert(s.subrange(0, s.len() as int) =~= s);
    } else {
        let t = s.drop_first();
        assert forall|j: int| 0 <= j < i - 1 implies p(#[trigger] t[j]) by {
            assert(t[j] == s[j + 1]);
        }
        lemma_strip_leading_at(t, p, i - 1);
        assert(t.subrange(i - 1, t.len() as int) =~= s.subrange(i, s.len() as int));
    }
}

/// If the elements from `i` on satisfy `p` and the one before does not,
/// stripping the back leaves what ends at `i`.
pub proof fn lemma_strip_trailing_at<T>(s: Seq<T>, p: spec_fn(T) -> bool, i: int)
    requires
        0 <= i <= s.len(),
        forall|j: int| i <= j < s.len() ==> p(#[trigger] s[j]),
        i == 0 || !p(s[i - 1]),
    ensures
        strip_trailing(s, p) == s.subrange(0, i),
    decreases s.len() - i,
{
    if i == s.len() {
        assert(s.subrange(0, s.len() as int) =~= s);
    } else {
        let t = s.drop_last();
        assert forall|j: int| i <= j < t.len() implies p(#[trigger] t[j]) by {
            assert(t[j] == s[j]);
        }
        lemma_strip_trailing_at(t, p, i);
        assert(t.subrange(0, i) =~= s.subrange(0, i));
    }
}

/// The part of `buf` between its leading and its trailing NUL bytes.
pub fn trim_nul(buf: &[u8]) -> (r: &[u8])
    ensures
        r@ == trim_nul_spec(buf@),
{
    let n: usize = buf.len();
    let mut start: usize = 0;
    while start < n && buf[start] == 0
        invariant
            start <= n,
            n == buf@.len(),
            forall|j: int| 0 <= j < start ==> buf@[j] == 0,
        decreases n - start,
    {
        start += 1;
    }
    let mut end: usize = n;
    while end > start && buf[end - 1] == 0
        invariant
            start <= end <= n,
            n == buf@.len(),
            forall|j: int| end <= j < n ==> buf@[j] == 0,
        decreases end,
    {
        end -= 1;
    }
    proof {
        let p = nul_byte();
        let mid = buf@.subrange(start as int, n as int);
        assert forall|j: int| 0 <= j < start implies p(#[trigger] buf@[j]) by {}
        lemma_strip_leading_at(buf@, p, start as int);
        assert forall|j: int| end - start <= j < mid.len() implies p(#[trigger] mid[j]) by {
            assert(mid[j] == buf@[j + start]);
        }
        lemma_strip_trailing_at(mid, p, end - start);
        assert(mid.subrange(0, end - start) =~= buf@.subrange(start as int, end as int));
    }
    slice_subrange(buf, start, end)
}

/// The text without the whitespace at its two ends.
pub fn trim_whitespace(s: &str) -> (r: String)
    ensures
        r@ == trim_whitespace_spec(s@),
{
    let n: usize = s.unicode_len();
    let mut start: usize = 0;
    while start < n && is_whitespace(s.get_char(start))
        invariant
            start <= n,
            n == s@.len(),
            forall|j: int| 0 <= j < start ==> white_space(s@[j]),
        decreases n - start,
    {
        start += 1;
    }
    let mut end: usize = n;
    while end > start && is_whitespace(s.get_char(end - 1))
        invariant
            start <= end <= n,
            n == s@.len(),
            forall|j: int| end <= j < n ==> white_space(s@[j]),
        decreases end,
    {
        end -= 1;
    }
    proof {
        let p = whitespace_char();
        let mid = s@.subrange(start as int, n as int);
        assert forall|j: int| 0 <= j < start implies p(#[trigger] s@[j]) by {}
        lemma_strip_leading_at(s@, p, start as int);
        assert forall|j: int| end - start <= j < mid.len() implies p(#[trigger] mid[j]) by {
            assert(mid[j] == s@[j + start]);
        }
        lemma_strip_trailing_at(mid, p, end - start);
        assert(mid.subrange(0, end - start) =~= s@.subrange(start as int, end as int));
    }
    s.substring_char(start, end).to_owned()
}

/// Whether `s` begins with `prefix`.
pub open spec fn starts_with(s: Seq<char>, prefix: Seq<char>) -> bool {
    prefix.len() <= s.len() && s.subrange(0, prefix.len() as int) == prefix
}

/// Whether `s` ends with `suffix`.
pub open spec fn ends_with(s: Seq<char>, suffix: Seq<char>) -> bool {
    suffix.len() <= s.len() && s.subrange(s.len() - suffix.len(), s.len() as int) == suffix
}

/// Whether `s` holds `part` from position `at` on.
fn holds_at(s: &str, at: usize, part: &str, len: usize, part_len: usize) -> (b: bool)
    requires
        len == s@.len(),
        part_len == part@.len(),
        at + part_len <= len,
    ensures
        b == (s@.subrange(at as int, at + part_len) == part@),
{
    let mut i: usize = 0;
    while i < part_len
        invariant
            i <= part_len,
            len == s@.len(),
            part_len == part@.len(),
            at + part_len <= len,
            forall|j: int| 0 <= j < i ==> s@[at + j] == part@[j],
        decreases part_len - i,
    {
        if s.get_char(at + i) != part.get_char(i) {
            assert(s@.subrange(at as int, at + part_len)[i as int] != part@[i as int]);
            return false;
        }
        i += 1;
    }
    assert(s@.subrange(at as int, at + part_len) =~= part@);
    true
}

/// Tells whether `s` begins with `prefix`.
pub fn has_prefix(s: &str, prefix: &str) -> (b: bool)
    ensures
        b == starts_with(s@, prefix@),
{
    let len: usize = s.unicode_len();
    let part_len: usize = prefix.unicode_len();
    if part_len > len {
        return false;
    }
    holds_at(s, 0, prefix, len, part_len)
}

/// Tells whether `s` ends with `suffix`.
pub fn has_suffix(s: &str, suffix: &str) -> (b: bool)
    ensures
        b == ends_with(s@, suffix@),
{
    let len: usize = s.unicode_len();
    let part_len: usize = suffix.unicode_len();
    if part_len > len {
        return false;
    }
    holds_at(s, len - part_len, suffix, len, part_len)
}

/// The sixteen hexadecimal digits, upper case.
pub open spec fn hex_digits() -> Seq<char> {
    "0123456789ABCDEF"@
}

/// The digits of a positive number in base sixteen, most significant first;
/// no digits for zero.
pub open spec fn hex_tail(n: nat) -> Seq<char>
    decreases n,
{
    if n == 0 {
        Seq::empty()
    } else {
        hex_tail(n / 16).push(hex_digits()[(n % 16) as int])
    }
}

/// A number in upper-case hexadecimal without leading zeros.
pub open spec fn upper_hex(n: nat) -> Seq<char> {
    if n == 0 {
        "0"@
    } else {
        hex_tail(n)
    }
}

/// Renders a number in upper-case hexadecimal without leading zeros.
pub fn to_upper_hex(v: u64) -> (s: String)
    ensures
        s@ == upper_hex(v as nat),
{
    if v == 0 {
        return "0".to_owned();
    }
    proof {
        reveal_strlit("0123456789ABCDEF");
    }
    let digits = "0123456789ABCDEF";
    let mut low_first: Vec<char> = Vec::new();
    let mut rest: u64 = v;
    while rest > 0
        invariant
            digits@ == hex_digits(),
            digits@.len() == 16,
            hex_tail(v as nat) == hex_tail(rest as nat) + low_first@.reverse(),
        decreases rest,
    {
        let d: usize = (rest % 16) as usize;
        let c = digits.get_char(d);
        proof {
            let before = low_first@;
            let after = before.push(c);
            assert(after.reverse() =~= seq![c] + before.reverse());
            assert(hex_tail(rest as nat) == hex_tail((rest / 16) as nat).push(c));
            assert(hex_tail((rest / 16) as nat).push(c) + before.reverse() =~= hex_tail(
                (rest / 16) as nat,
            ) + (seq![c] + before.reverse()));
        }
        low_first.push(c);
        rest = rest / 16;
    }
    let mut out = String::new();
    let mut i: usize = low_first.len();
    while i > 0
        invariant
            i <= low_first.len(),
            out@ == low_first@.reverse().subrange(0, low_first.len() - i),
        decreases i,
    {
        i -= 1;
        let c = low_first[i];
        proof {
            let r = low_first@.reverse();
            let k = low_first.len() - 1 - i;
            assert(r[k] == low_first@[i as int]);
            assert(r.subrange(0, k + 1) =~= r.subrange(0, k).push(r[k]));
        }
        push_char(&mut out, c);
    }
    proof {
        let r = low_first@.reverse();
        assert(r.subrange(0, r.len() as int) =~= r);
        assert(hex_tail(0) + r =~= r);
    }
    out
}

} // verus!
