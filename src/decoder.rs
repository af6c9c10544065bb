//! Small decoders of ICAP header values and the scanning helpers they share.
use crate::ascii::{COMMA, CR, HT, LF, SP};
use crate::errors::DecoderError;
use crate::numbers::{parse_unsigned, parse_unsigned_at};
use crate::text::{code_204, code_204_bytes, code_206, code_206_bytes};
use vstd::prelude::*;

verus! {

/// The most headers one message may carry.
pub const MAX_HEADERS: usize = 128;

/// Whether a decoder had enough input.
#[derive(Debug, Copy, Clone, PartialEq, Eq, Structural)]
pub enum DecodingStatus {
    Partial,
    Complete,
}

impl DecodingStatus {
    pub fn is_partial(self) -> (r: bool)
        ensures
            r == (self == DecodingStatus::Partial),
    {
        self == DecodingStatus::Partial
    }
}

/// The responses that an ICAP client allows, from its `Allow` header.
#[derive(Debug, Copy, Clone, PartialEq, Eq, Structural, Default)]
pub struct Allow {
    pub allow_204: bool,
    pub allow_206: bool,
}

impl Allow {
    /// Adds the allowances of `other` to these.
    pub fn add(&mut self, other: &Allow)
        ensures
            final(self).allow_204 == (old(self).allow_204 || other.allow_204),
            final(self).allow_206 == (old(self).allow_206 || other.allow_206),
    {
        self.allow_204 = self.allow_204 || other.allow_204;
        self.allow_206 = self.allow_206 || other.allow_206;
    }
}

/// A space or a horizontal tab.
pub open spec fn is_blank(c: u8) -> bool {
    c == SP || c == HT
}

/// ASCII whitespace as Rust's `u8::is_ascii_whitespace` defines it.
pub open spec fn is_ascii_ws(c: u8) -> bool {
    c == SP || c == HT || c == LF || c == 0x0Cu8 || c == CR
}

/// The first position at or after `i` that does not hold a blank.
pub open spec fn skip_blanks(b: Seq<u8>, i: int) -> int
    decreases b.len() - i,
{
    if 0 <= i < b.len() && is_blank(b[i]) {
        skip_blanks(b, i + 1)
    } else {
        i
    }
}

pub proof fn lemma_skip_blanks(b: Seq<u8>, i: int)
    requires
        0 <= i <= b.len(),
    ensures
        i <= skip_blanks(b, i) <= b.len(),
        forall|k: int| i <= k < skip_blanks(b, i) ==> is_blank(#[trigger] b[k]),
        skip_blanks(b, i) < b.len() ==> !is_blank(b[skip_blanks(b, i)]),
    decreases b.len() - i,
{
    if i < b.len() && is_blank(b[i]) {
        lemma_skip_blanks(b, i + 1);
    }
}

/// Moves `i` past the spaces and tabs that start at it.
pub fn skip_whitespace(buf: &[u8], i: &mut usize)
    ensures
        *final(i) == skip_blanks(buf@, *old(i) as int),
{
    while *i < buf.len() && (buf[*i] == SP || buf[*i] == HT)
        invariant
            skip_blanks(buf@, *i as int) == skip_blanks(buf@, *old(i) as int),
        decreases buf@.len() - *i,
    {
        *i = *i + 1;
    }
}

/// Moves `i` past the byte `c` if it stands at `i`.
pub fn skip_char(buf: &[u8], i: &mut usize, c: u8)
    ensures
        *final(i) == if *old(i) < buf@.len() && buf@[*old(i) as int] == c {
            *old(i) + 1
        } else {
            *old(i) as int
        },
{
    if *i < buf.len() {
        if buf[*i] == c {
            *i = *i + 1;
        }
    }
}

/// Whether `s[start..]` begins with `w`.
pub fn matches_at(s: &[u8], start: usize, w: &[u8]) -> (r: bool)
    ensures
        r == (start + w@.len() <= s@.len() && s@.subrange(start as int, start + w@.len()) == w@),
{
    if start > s.len() || w.len() > s.len() - start {
        return false;
    }
    let mut k: usize = 0;
    while k < w.len()
        invariant
            start + w@.len() <= s@.len() <= usize::MAX,
            k <= w@.len(),
            forall|j: int| 0 <= j < k ==> s@[start + j] == w@[j],
        decreases w@.len() - k,
    {
        if s[start + k] != w[k] {
            assert(s@.subrange(start as int, start + w@.len())[k as int] != w@[k as int]);
            return false;
        }
        k = k + 1;
    }
    assert(s@.subrange(start as int, start + w@.len()) =~= w@);
    true
}

/// A separator of the words of an `Allow` value.
pub open spec fn is_allow_sep(c: u8) -> bool {
    is_ascii_ws(c) || c == COMMA
}

/// `w` stands in `b` at `a` as a whole word: bounded by separators or by the
/// ends of `b`.
pub open spec fn word_at(b: Seq<u8>, a: int, w: Seq<u8>) -> bool {
    &&& 0 <= a
    &&& a + w.len() <= b.len()
    &&& b.subrange(a, a + w.len()) == w
    &&& (a == 0 || is_allow_sep(b[a - 1]))
    &&& (a + w.len() == b.len() || is_allow_sep(b[a + w.len()]))
}

pub open spec fn has_word(b: Seq<u8>, w: Seq<u8>) -> bool {
    exists|a: int| word_at(b, a, w)
}

fn is_allow_sep_exec(c: u8) -> (r: bool)
    ensures
        r == is_allow_sep(c),
{
    c == SP || c == HT || c == LF || c == 0x0Cu8 || c == CR || c == COMMA
}

fn contains_word(b: &[u8], w: &[u8]) -> (r: bool)
    ensures
        r == has_word(b@, w@),
{
    let mut a: usize = 0;
    while a < b.len()
        invariant
            a <= b@.len(),
            forall|x: int| 0 <= x < a ==> !word_at(b@, x, w@),
        decreases b@.len() - a,
    {
        if matches_at(b, a, w) && (a == 0 || is_allow_sep_exec(b[a - 1])) && (a + w.len()
            == b.len() || is_allow_sep_exec(b[a + w.len()])) {
            assert(word_at(b@, a as int, w@));
            return true;
        }
        a = a + 1;
    }
    if matches_at(b, a, w) && (a == 0 || is_allow_sep_exec(b[a - 1])) {
        assert(word_at(b@, a as int, w@));
        return true;
    }
    assert forall|x: int| !word_at(b@, x, w@) by {
        if 0 <= x && x > b@.len() {
            assert(x + w@.len() > b@.len());
        }
    }
    false
}

/// Decodes the value of an `Allow` header: the words `204` and `206`, in a
/// list separated by commas and whitespace.
pub fn decode_allow(bytes: &[u8]) -> (r: Result<Allow, DecoderError>)
    ensures
        r == Ok::<Allow, DecoderError>(
            Allow { allow_204: has_word(bytes@, code_204()), allow_206: has_word(bytes@, code_206()) },
        ),
{
    let w204 = code_204_bytes();
    let w206 = code_206_bytes();
    let allow_204 = contains_word(bytes, w204.as_slice());
    let allow_206 = contains_word(bytes, w206.as_slice());
    Ok(Allow { allow_204, allow_206 })
}

/// The first position at or after `i` that holds ASCII whitespace, or the end.
pub open spec fn word_end(b: Seq<u8>, i: int) -> int
    decreases b.len() - i,
{
    if 0 <= i < b.len() && !is_ascii_ws(b[i]) {
        word_end(b, i + 1)
    } else {
        i
    }
}

/// The first position at or after `i` that holds no ASCII whitespace, or the end.
pub open spec fn skip_ascii_ws(b: Seq<u8>, i: int) -> int
    decreases b.len() - i,
{
    if 0 <= i < b.len() && is_ascii_ws(b[i]) {
        skip_ascii_ws(b, i + 1)
    } else {
        i
    }
}

pub open spec fn all_ascii(s: Seq<u8>) -> bool {
    forall|k: int| 0 <= k < s.len() ==> #[trigger] s[k] < 0x80u8
}

/// The `Preview` value read from position `i`: the first word (between ASCII
/// whitespace) that is all ASCII, as a decimal number.
pub open spec fn preview_from(b: Seq<u8>, i: int) -> Result<usize, DecoderError>
    decreases b.len() - i,
{
    let a = skip_ascii_ws(b, i);
    let e = word_end(b, a);
    if a < i || a >= b.len() || e <= i || e > b.len() {
        Err(DecoderError::FailedToParsePreview)
    } else if all_ascii(b.subrange(a, e)) {
        match parse_unsigned(b.subrange(a, e), 10) {
            Some(v) => Ok(v),
            None => Err(DecoderError::FailedToParsePreview),
        }
    } else {
        preview_from(b, e)
    }
}

proof fn lemma_word_end(b: Seq<u8>, i: int)
    requires
        0 <= i <= b.len(),
    ensures
        i <= word_end(b, i) <= b.len(),
        i < b.len() && !is_ascii_ws(b[i]) ==> word_end(b, i) > i,
    decreases b.len() - i,
{
    if i < b.len() && !is_ascii_ws(b[i]) {
        lemma_word_end(b, i + 1);
    }
}

proof fn lemma_skip_ascii_ws(b: Seq<u8>, i: int)
    requires
        0 <= i <= b.len(),
    ensures
        i <= skip_ascii_ws(b, i) <= b.len(),
        skip_ascii_ws(b, i) < b.len() ==> !is_ascii_ws(b[skip_ascii_ws(b, i)]),
    decreases b.len() - i,
{
    if i < b.len() && is_ascii_ws(b[i]) {
        lemma_skip_ascii_ws(b, i + 1);
    }
}

fn is_ascii_ws_exec(c: u8) -> (r: bool)
    ensures
        r == is_ascii_ws(c),
{
    c == SP || c == HT || c == LF || c == 0x0Cu8 || c == CR
}

/// Decodes the value of a `Preview` header.
pub fn decode_preview(bytes: &[u8]) -> (r: Result<usize, DecoderError>)
    ensures
        r == preview_from(bytes@, 0),
{
    let mut i: usize = 0;
    while i < bytes.len()
        invariant
            i <= bytes@.len(),
            preview_from(bytes@, i as int) == preview_from(bytes@, 0),
        decreases bytes@.len() - i,
    {
        let ghost i0 = i as int;
        proof {
            lemma_skip_ascii_ws(bytes@, i0);
        }
        while i < bytes.len() && is_ascii_ws_exec(bytes[i])
            invariant
                i0 <= i <= bytes@.len(),
                skip_ascii_ws(bytes@, i as int) == skip_ascii_ws(bytes@, i0),
            decreases bytes@.len() - i,
        {
            i = i + 1;
        }
        if i == bytes.len() {
            return Err(DecoderError::FailedToParsePreview);
        }
        let a = i;
        proof {
            lemma_word_end(bytes@, a as int);
        }
        let mut ascii = true;
        while i < bytes.len() && !is_ascii_ws_exec(bytes[i])
            invariant
                a <= i <= bytes@.len(),
                word_end(bytes@, i as int) == word_end(bytes@, a as int),
                ascii == (forall|k: int| a <= k < i ==> #[trigger] bytes@[k] < 0x80u8),
            decreases bytes@.len() - i,
        {
            if bytes[i] >= 0x80u8 {
                ascii = false;
            }
            i = i + 1;
        }
        proof {
            let sub = bytes@.subrange(a as int, i as int);
            if !ascii {
                let k = choose|k: int| a <= k < i && !(#[trigger] bytes@[k] < 0x80u8);
                assert(!(sub[k - a] < 0x80u8));
            } else {
                assert forall|k: int| 0 <= k < sub.len() implies #[trigger] sub[k] < 0x80u8 by {
                    assert(sub[k] == bytes@[a + k]);
                }
            }
        }
        if ascii {
            return match parse_unsigned_at(bytes, a, i, 10) {
                Some(v) => Ok(v),
                None => Err(DecoderError::FailedToParsePreview),
            };
        }
    }
    Err(DecoderError::FailedToParsePreview)
}

} // verus!
