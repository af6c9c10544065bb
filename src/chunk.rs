//! The decoder of one ICAP chunk-header line: a hexadecimal size, optional
//! chunk extensions, and the terminating CRLF.
use crate::errors::DecoderError;
use crate::ascii::{
    BACKSLASH, CR, DIGIT_0, DIGIT_9, DQUOTE, EQUALS, HT, HYPHEN, LF, LOWER_A, LOWER_F, LOWER_Z, PLUS,
    SEMICOLON, SP, UPPER_A, UPPER_F, UPPER_Z,
};
use crate::numbers::{parse_unsigned, parse_unsigned_at};
use vstd::prelude::*;

verus! {

/// What a chunk-header line says.
#[derive(Debug, Copy, Clone, PartialEq, Eq, Structural, Default)]
pub struct ChunkHdr {
    /// The chunk's size, from the hexadecimal size field.
    pub chunk_len: usize,
    /// The bytes of the line, its CRLF included.
    pub line_len: usize,
    /// Whether an extension named exactly `ieof` appeared.
    pub ieof: bool,
}

/// The states of the chunk-header decoder.
#[derive(Debug, Copy, Clone, PartialEq, Eq, Structural)]
pub enum ChunkHeaderState {
    WaitingSize,
    Size,
    WaitingDelimiter,
    WaitingExtName,
    ExtName,
    WaitingExtDelimiter,
    WaitingExtValue,
    ExtValueToken,
    ExtValueQuotedString,
}

/// The decoder's state between two bytes.
#[derive(Debug, Copy, Clone, PartialEq, Eq, Structural)]
pub struct ChunkScan {
    pub state: ChunkHeaderState,
    /// Where the size field began.
    pub size_start: usize,
    /// Where the current extension's name began.
    pub name_start: usize,
    /// Inside a quoted string, after a backslash.
    pub escaped: bool,
    /// What is known of the header so far.
    pub hdr: ChunkHdr,
}

/// What the decoder does on one byte.
pub enum ChunkStep {
    Next(ChunkScan),
    Done(ChunkHdr),
    Fail(DecoderError),
    NeedMore,
}

pub open spec fn is_spht(b: u8) -> bool {
    b == SP || b == HT
}

/// A `tchar` of RFC 7230: a letter, a digit or one of ``!#$%&'*+-.^_`|~``.
pub open spec fn is_token(b: u8) -> bool {
    (DIGIT_0 <= b <= DIGIT_9) || (LOWER_A <= b <= LOWER_Z) || (UPPER_A <= b <= UPPER_Z) || b == 0x21u8 || b == 0x23u8
        || b == 0x24u8 || b == 0x25u8 || b == 0x26u8 || b == 0x27u8 || b == 0x2Au8 || b == PLUS || b
        == HYPHEN || b == 0x2Eu8 || b == 0x5Eu8 || b == 0x5Fu8 || b == 0x60u8 || b == 0x7Cu8 || b == 0x7Eu8
}

/// A byte that may stand unescaped in a quoted string (`qdtext`).
pub open spec fn is_qdtext(b: u8) -> bool {
    b == HT || b == SP || b == 0x21u8 || (0x23u8 <= b <= 0x5Bu8) || (0x5Du8 <= b <= 0x7Eu8)
        || b >= 0x80u8
}

pub open spec fn is_hex(b: u8) -> bool {
    (DIGIT_0 <= b <= DIGIT_9) || (LOWER_A <= b <= LOWER_F) || (UPPER_A <= b <= UPPER_F)
}

/// The extension name `ieof`.
pub open spec fn ieof_name() -> Seq<u8> {
    seq![0x69u8, 0x65u8, 0x6Fu8, LOWER_F]
}

pub open spec fn initial_scan() -> ChunkScan {
    ChunkScan {
        state: ChunkHeaderState::WaitingSize,
        size_start: 0,
        name_start: 0,
        escaped: false,
        hdr: ChunkHdr { chunk_len: 0, line_len: 0, ieof: false },
    }
}

/// The decoder moved to another state, all else kept.
pub open spec fn goto(s: ChunkScan, st: ChunkHeaderState) -> ChunkStep {
    ChunkStep::Next(ChunkScan { state: st, ..s })
}

/// A CR at `i`: the line ends there if a LF follows.
pub open spec fn at_cr(b: Seq<u8>, i: int, h: ChunkHdr) -> ChunkStep {
    if i >= b.len() - 1 {
        ChunkStep::NeedMore
    } else if b[i + 1] == LF {
        ChunkStep::Done(ChunkHdr { line_len: (i + 2) as usize, ..h })
    } else {
        ChunkStep::Fail(DecoderError::BadChunkHeader)
    }
}

/// The size field ends at `i`, then the decoder goes on in state `st`.
pub open spec fn end_size(b: Seq<u8>, i: int, s: ChunkScan, st: ChunkHeaderState) -> ChunkStep {
    match parse_unsigned(b.subrange(s.size_start as int, i), 16) {
        Some(v) => ChunkStep::Next(
            ChunkScan { state: st, hdr: ChunkHdr { chunk_len: v, ..s.hdr }, ..s },
        ),
        None => ChunkStep::Fail(DecoderError::BadChunkSize),
    }
}

/// The header with `ieof` set if the extension name that ends at `i` is `ieof`.
pub open spec fn with_name(b: Seq<u8>, i: int, s: ChunkScan) -> ChunkHdr {
    ChunkHdr { ieof: s.hdr.ieof || b.subrange(s.name_start as int, i) == ieof_name(), ..s.hdr }
}

/// One transition of the chunk-header state machine, on the byte at `i`.
pub open spec fn step_spec(b: Seq<u8>, i: int, s: ChunkScan) -> ChunkStep {
    let c = b[i];
    let bad = ChunkStep::Fail(DecoderError::BadChunkHeader);
    match s.state {
        ChunkHeaderState::WaitingSize => if is_spht(c) {
            ChunkStep::Next(s)
        } else if is_hex(c) {
            ChunkStep::Next(ChunkScan { state: ChunkHeaderState::Size, size_start: i as usize, ..s })
        } else {
            bad
        },
        ChunkHeaderState::Size => if is_hex(c) {
            ChunkStep::Next(s)
        } else if is_spht(c) {
            end_size(b, i, s, ChunkHeaderState::WaitingDelimiter)
        } else if c == SEMICOLON {
            end_size(b, i, s, ChunkHeaderState::WaitingExtName)
        } else if c == CR {
            if i >= b.len() - 1 {
                ChunkStep::NeedMore
            } else if b[i + 1] == LF {
                match parse_unsigned(b.subrange(s.size_start as int, i), 16) {
                    Some(v) => ChunkStep::Done(
                        ChunkHdr { chunk_len: v, line_len: (i + 2) as usize, ieof: false },
                    ),
                    None => ChunkStep::Fail(DecoderError::BadChunkSize),
                }
            } else {
                bad
            }
        } else {
            bad
        },
        ChunkHeaderState::WaitingDelimiter => if is_spht(c) {
            ChunkStep::Next(s)
        } else if c == SEMICOLON {
            goto(s, ChunkHeaderState::WaitingExtName)
        } else if c == CR {
            at_cr(b, i, s.hdr)
        } else {
            bad
        },
        ChunkHeaderState::WaitingExtName => if is_spht(c) {
            ChunkStep::Next(s)
        } else if is_token(c) {
            ChunkStep::Next(
                ChunkScan { state: ChunkHeaderState::ExtName, name_start: i as usize, ..s },
            )
        } else {
            bad
        },
        ChunkHeaderState::ExtName => if is_token(c) {
            ChunkStep::Next(s)
        } else if is_spht(c) {
            ChunkStep::Next(
                ChunkScan {
                    state: ChunkHeaderState::WaitingExtDelimiter,
                    hdr: with_name(b, i, s),
                    ..s
                },
            )
        } else if c == SEMICOLON {
            ChunkStep::Next(
                ChunkScan { state: ChunkHeaderState::WaitingExtName, hdr: with_name(b, i, s), ..s },
            )
        } else if c == EQUALS {
            ChunkStep::Next(
                ChunkScan { state: ChunkHeaderState::WaitingExtValue, hdr: with_name(b, i, s), ..s },
            )
        } else if c == CR {
            at_cr(b, i, with_name(b, i, s))
        } else {
            bad
        },
        ChunkHeaderState::WaitingExtDelimiter => if is_spht(c) {
            ChunkStep::Next(s)
        } else if c == SEMICOLON {
            goto(s, ChunkHeaderState::WaitingExtName)
        } else if c == EQUALS {
            goto(s, ChunkHeaderState::WaitingExtValue)
        } else if c == CR {
            at_cr(b, i, s.hdr)
        } else {
            bad
        },
        ChunkHeaderState::WaitingExtValue => if is_spht(c) {
            ChunkStep::Next(s)
        } else if c == DQUOTE {
            ChunkStep::Next(
                ChunkScan { state: ChunkHeaderState::ExtValueQuotedString, escaped: false, ..s },
            )
        } else if is_token(c) {
            goto(s, ChunkHeaderState::ExtValueToken)
        } else {
            bad
        },
        ChunkHeaderState::ExtValueQuotedString => if s.escaped {
            if c < 0x80u8 {
                ChunkStep::Next(ChunkScan { escaped: false, ..s })
            } else {
                bad
            }
        } else if c == DQUOTE {
            goto(s, ChunkHeaderState::WaitingDelimiter)
        } else if c == BACKSLASH {
            ChunkStep::Next(ChunkScan { escaped: true, ..s })
        } else if is_qdtext(c) {
            ChunkStep::Next(s)
        } else {
            bad
        },
        ChunkHeaderState::ExtValueToken => if is_token(c) {
            ChunkStep::Next(s)
        } else if is_spht(c) {
            goto(s, ChunkHeaderState::WaitingDelimiter)
        } else if c == SEMICOLON {
            goto(s, ChunkHeaderState::WaitingExtName)
        } else if c == CR {
            at_cr(b, i, s.hdr)
        } else {
            bad
        },
    }
}

/// The decoder run from position `i` in state `s`: `Ok(None)` when the input
/// ends before the line does.
pub open spec fn scan(b: Seq<u8>, i: int, s: ChunkScan) -> Result<Option<ChunkHdr>, DecoderError>
    decreases b.len() - i,
{
    if i < 0 || i >= b.len() {
        Ok(None)
    } else {
        match step_spec(b, i, s) {
            ChunkStep::Next(t) => scan(b, i + 1, t),
            ChunkStep::Done(h) => Ok(Some(h)),
            ChunkStep::Fail(e) => Err(e),
            ChunkStep::NeedMore => Ok(None),
        }
    }
}

/// What decoding a chunk header from the bytes `b` gives.
pub open spec fn chunk_header_of(b: Seq<u8>) -> Result<Option<ChunkHdr>, DecoderError> {
    scan(b, 0, initial_scan())
}

pub open spec fn scan_wf(s: ChunkScan, i: int) -> bool {
    s.size_start <= i && s.name_start <= i
}

fn is_spht_exec(b: u8) -> (r: bool)
    ensures
        r == is_spht(b),
{
    b == SP || b == HT
}

pub(crate) fn is_token_exec(b: u8) -> (r: bool)
    ensures
        r == is_token(b),
{
    (DIGIT_0 <= b && b <= DIGIT_9) || (LOWER_A <= b && b <= LOWER_Z) || (UPPER_A <= b && b <= UPPER_Z) || b == 0x21u8
        || b == 0x23u8 || b == 0x24u8 || b == 0x25u8 || b == 0x26u8 || b == 0x27u8 || b == 0x2Au8 || b
        == PLUS || b == HYPHEN || b == 0x2Eu8 || b == 0x5Eu8 || b == 0x5Fu8 || b == 0x60u8 || b == 0x7Cu8
        || b == 0x7Eu8
}

fn is_qdtext_exec(b: u8) -> (r: bool)
    ensures
        r == is_qdtext(b),
{
    b == HT || b == SP || b == 0x21u8 || (0x23u8 <= b && b <= 0x5Bu8) || (0x5Du8 <= b && b
        <= 0x7Eu8) || b >= 0x80u8
}

fn is_hex_exec(b: u8) -> (r: bool)
    ensures
        r == is_hex(b),
{
    (DIGIT_0 <= b && b <= DIGIT_9) || (LOWER_A <= b && b <= LOWER_F) || (UPPER_A <= b && b <= UPPER_F)
}

fn is_ieof(b: &[u8], start: usize, end: usize) -> (r: bool)
    requires
        start <= end <= b@.len(),
    ensures
        r == (b@.subrange(start as int, end as int) == ieof_name()),
{
    let ghost sub = b@.subrange(start as int, end as int);
    if end - start != 4 {
        assert(sub.len() != ieof_name().len());
        return false;
    }
    let r = b[start] == 0x69u8 && b[start + 1] == 0x65u8 && b[start + 2] == 0x6Fu8 && b[start + 3]
        == LOWER_F;
    if r {
        assert(sub =~= ieof_name());
    } else {
        assert(sub[0] != 0x69u8 || sub[1] != 0x65u8 || sub[2] != 0x6Fu8 || sub[3] != LOWER_F);
    }
    r
}

fn at_cr_exec(b: &[u8], i: usize, h: ChunkHdr) -> (r: ChunkStep)
    requires
        i < b@.len(),
    ensures
        r == at_cr(b@, i as int, h),
{
    if i >= b.len() - 1 {
        ChunkStep::NeedMore
    } else if b[i + 1] == LF {
        ChunkStep::Done(ChunkHdr { line_len: i + 2, ..h })
    } else {
        ChunkStep::Fail(DecoderError::BadChunkHeader)
    }
}

fn end_size_exec(b: &[u8], i: usize, s: ChunkScan, st: ChunkHeaderState) -> (r: ChunkStep)
    requires
        i < b@.len(),
        scan_wf(s, i as int),
    ensures
        r == end_size(b@, i as int, s, st),
{
    match parse_unsigned_at(b, s.size_start, i, 16) {
        Some(v) => ChunkStep::Next(
            ChunkScan { state: st, hdr: ChunkHdr { chunk_len: v, ..s.hdr }, ..s },
        ),
        None => ChunkStep::Fail(DecoderError::BadChunkSize),
    }
}

fn with_name_exec(b: &[u8], i: usize, s: ChunkScan) -> (r: ChunkHdr)
    requires
        i < b@.len(),
        scan_wf(s, i as int),
    ensures
        r == with_name(b@, i as int, s),
{
    let ieof = s.hdr.ieof || is_ieof(b, s.name_start, i);
    ChunkHdr { ieof, ..s.hdr }
}

/// One transition of the state machine on the byte at `i`.
fn step(b: &[u8], i: usize, s: ChunkScan) -> (r: ChunkStep)
    requires
        i < b@.len(),
        scan_wf(s, i as int),
    ensures
        r == step_spec(b@, i as int, s),
        r matches ChunkStep::Next(t) ==> scan_wf(t, i + 1),
{
    let c = b[i];
    match s.state {
        ChunkHeaderState::WaitingSize => if is_spht_exec(c) {
            ChunkStep::Next(s)
        } else if is_hex_exec(c) {
            ChunkStep::Next(ChunkScan { state: ChunkHeaderState::Size, size_start: i, ..s })
        } else {
            ChunkStep::Fail(DecoderError::BadChunkHeader)
        },
        ChunkHeaderState::Size => if is_hex_exec(c) {
            ChunkStep::Next(s)
        } else if is_spht_exec(c) {
            end_size_exec(b, i, s, ChunkHeaderState::WaitingDelimiter)
        } else if c == SEMICOLON {
            end_size_exec(b, i, s, ChunkHeaderState::WaitingExtName)
        } else if c == CR {
            if i >= b.len() - 1 {
                ChunkStep::NeedMore
            } else if b[i + 1] == LF {
                match parse_unsigned_at(b, s.size_start, i, 16) {
                    Some(v) => ChunkStep::Done(ChunkHdr { chunk_len: v, line_len: i + 2, ieof: false }),
                    None => ChunkStep::Fail(DecoderError::BadChunkSize),
                }
            } else {
                ChunkStep::Fail(DecoderError::BadChunkHeader)
            }
        } else {
            ChunkStep::Fail(DecoderError::BadChunkHeader)
        },
        ChunkHeaderState::WaitingDelimiter => if is_spht_exec(c) {
            ChunkStep::Next(s)
        } else if c == SEMICOLON {
            ChunkStep::Next(ChunkScan { state: ChunkHeaderState::WaitingExtName, ..s })
        } else if c == CR {
            at_cr_exec(b, i, s.hdr)
        } else {
            ChunkStep::Fail(DecoderError::BadChunkHeader)
        },
        ChunkHeaderState::WaitingExtName => if is_spht_exec(c) {
            ChunkStep::Next(s)
        } else if is_token_exec(c) {
            ChunkStep::Next(ChunkScan { state: ChunkHeaderState::ExtName, name_start: i, ..s })
        } else {
            ChunkStep::Fail(DecoderError::BadChunkHeader)
        },
        ChunkHeaderState::ExtName => if is_token_exec(c) {
            ChunkStep::Next(s)
        } else if is_spht_exec(c) {
            let h = with_name_exec(b, i, s);
            ChunkStep::Next(ChunkScan { state: ChunkHeaderState::WaitingExtDelimiter, hdr: h, ..s })
        } else if c == SEMICOLON {
            let h = with_name_exec(b, i, s);
            ChunkStep::Next(ChunkScan { state: ChunkHeaderState::WaitingExtName, hdr: h, ..s })
        } else if c == EQUALS {
            let h = with_name_exec(b, i, s);
            ChunkStep::Next(ChunkScan { state: ChunkHeaderState::WaitingExtValue, hdr: h, ..s })
        } else if c == CR {
            let h = with_name_exec(b, i, s);
            at_cr_exec(b, i, h)
        } else {
            ChunkStep::Fail(DecoderError::BadChunkHeader)
        },
        ChunkHeaderState::WaitingExtDelimiter => if is_spht_exec(c) {
            ChunkStep::Next(s)
        } else if c == SEMICOLON {
            ChunkStep::Next(ChunkScan { state: ChunkHeaderState::WaitingExtName, ..s })
        } else if c == EQUALS {
            ChunkStep::Next(ChunkScan { state: ChunkHeaderState::WaitingExtValue, ..s })
        } else if c == CR {
            at_cr_exec(b, i, s.hdr)
        } else {
            ChunkStep::Fail(DecoderError::BadChunkHeader)
        },
        ChunkHeaderState::WaitingExtValue => if is_spht_exec(c) {
            ChunkStep::Next(s)
        } else if c == DQUOTE {
            ChunkStep::Next(
                ChunkScan { state: ChunkHeaderState::ExtValueQuotedString, escaped: false, ..s },
            )
        } else if is_token_exec(c) {
            ChunkStep::Next(ChunkScan { state: ChunkHeaderState::ExtValueToken, ..s })
        } else {
            ChunkStep::Fail(DecoderError::BadChunkHeader)
        },
        ChunkHeaderState::ExtValueQuotedString => if s.escaped {
            if c < 0x80u8 {
                ChunkStep::Next(ChunkScan { escaped: false, ..s })
            } else {
                ChunkStep::Fail(DecoderError::BadChunkHeader)
            }
        } else if c == DQUOTE {
            ChunkStep::Next(ChunkScan { state: ChunkHeaderState::WaitingDelimiter, ..s })
        } else if c == BACKSLASH {
            ChunkStep::Next(ChunkScan { escaped: true, ..s })
        } else if is_qdtext_exec(c) {
            ChunkStep::Next(s)
        } else {
            ChunkStep::Fail(DecoderError::BadChunkHeader)
        },
        ChunkHeaderState::ExtValueToken => if is_token_exec(c) {
            ChunkStep::Next(s)
        } else if is_spht_exec(c) {
            ChunkStep::Next(ChunkScan { state: ChunkHeaderState::WaitingDelimiter, ..s })
        } else if c == SEMICOLON {
            ChunkStep::Next(ChunkScan { state: ChunkHeaderState::WaitingExtName, ..s })
        } else if c == CR {
            at_cr_exec(b, i, s.hdr)
        } else {
            ChunkStep::Fail(DecoderError::BadChunkHeader)
        },
    }
}

/// Decodes one chunk-header line at the start of `bytes`. `Ok(None)` means
/// that the line is not complete yet.
pub fn decode_chunk_header(bytes: &[u8]) -> (r: Result<Option<ChunkHdr>, DecoderError>)
    ensures
        r == chunk_header_of(bytes@),
{
    let mut s = ChunkScan {
        state: ChunkHeaderState::WaitingSize,
        size_start: 0,
        name_start: 0,
        escaped: false,
        hdr: ChunkHdr { chunk_len: 0, line_len: 0, ieof: false },
    };
    let mut idx: usize = 0;
    while idx < bytes.len()
        invariant
            idx <= bytes@.len(),
            scan_wf(s, idx as int),
            scan(bytes@, idx as int, s) == chunk_header_of(bytes@),
        decreases bytes@.len() - idx,
    {
        match step(bytes, idx, s) {
            ChunkStep::Next(t) => {
                s = t;
            },
            ChunkStep::Done(h) => {
                return Ok(Some(h));
            },
            ChunkStep::Fail(e) => {
                return Err(e);
            },
            ChunkStep::NeedMore => {
                return Ok(None);
            },
        }
        idx = idx + 1;
    }
    Ok(None)
}

impl ChunkHdr {
    /// The header of a chunk whose size field is `chunk_len` (hexadecimal
    /// text) and whose line is `line_len` bytes long.
    pub fn parse(chunk_len: &[u8], line_len: usize) -> (r: Result<ChunkHdr, DecoderError>)
        ensures
            r == match parse_unsigned(chunk_len@, 16) {
                Some(v) => Ok(ChunkHdr { chunk_len: v, line_len, ieof: false }),
                None => Err(DecoderError::BadChunkSize),
            },
    {
        proof {
            assert(chunk_len@.subrange(0, chunk_len@.len() as int) =~= chunk_len@);
        }
        match parse_unsigned_at(chunk_len, 0, chunk_len.len(), 16) {
            Some(v) => Ok(ChunkHdr { chunk_len: v, line_len, ieof: false }),
            None => Err(DecoderError::BadChunkSize),
        }
    }
}


proof fn lemma_scan_ends_with_crlf(b: Seq<u8>, i: int, s: ChunkScan)
    requires
        b.len() <= usize::MAX,
    ensures
        scan(b, i, s) matches Ok(Some(h)) ==> 2 <= h.line_len <= b.len() && b[h.line_len - 2]
            == CR && b[h.line_len - 1] == LF,
    decreases b.len() - i,
{
    if 0 <= i < b.len() {
        if let ChunkStep::Next(t) = step_spec(b, i, s) {
            lemma_scan_ends_with_crlf(b, i + 1, t);
        }
    }
}

/// A decoded chunk header's line ends with CRLF: the two bytes before
/// `line_len` are CR and LF.
pub proof fn lemma_chunk_line_ends_with_crlf(b: Seq<u8>)
    requires
        b.len() <= usize::MAX,
    ensures
        chunk_header_of(b) matches Ok(Some(h)) ==> h.line_len > 0 ==> h.line_len <= b.len()
            && b.subrange(h.line_len - 2, h.line_len as int) == seq![CR, LF],
{
    lemma_scan_ends_with_crlf(b, 0, initial_scan());
    if let Ok(Some(h)) = chunk_header_of(b) {
        assert(b.subrange(h.line_len - 2, h.line_len as int) =~= seq![CR, LF]);
    }
}

proof fn lemma_step_on_prefix(b: Seq<u8>, k: int, i: int, s: ChunkScan)
    requires
        0 <= i < k <= b.len(),
        scan_wf(s, i),
        step_spec(b, i, s) is Next,
    ensures
        step_spec(b.subrange(0, k), i, s) == step_spec(b, i, s),
        step_spec(b, i, s) matches ChunkStep::Next(t) ==> scan_wf(t, i + 1),
{
    let p = b.subrange(0, k);
    assert(p[i] == b[i]);
    assert(p.subrange(s.size_start as int, i) =~= b.subrange(s.size_start as int, i));
    assert(p.subrange(s.name_start as int, i) =~= b.subrange(s.name_start as int, i));
}

proof fn lemma_scan_on_prefix(b: Seq<u8>, k: int, i: int, s: ChunkScan, h: ChunkHdr)
    requires
        0 <= i <= k < b.len(),
        scan_wf(s, i),
        scan(b, i, s) == Ok::<Option<ChunkHdr>, DecoderError>(Some(h)),
        h.line_len == b.len(),
    ensures
        scan(b.subrange(0, k), i, s) == Ok::<Option<ChunkHdr>, DecoderError>(None),
    decreases k - i,
{
    let p = b.subrange(0, k);
    if i < k {
        match step_spec(b, i, s) {
            ChunkStep::Next(t) => {
                lemma_step_on_prefix(b, k, i, s);
                lemma_scan_on_prefix(b, k, i + 1, t, h);
            },
            _ => {
                assert(p[i] == b[i]);
            },
        }
    }
}

/// Fed the prefixes of a complete chunk-header line in turn, the decoder
/// asks for more input on every proper prefix.
pub proof fn lemma_chunk_prefixes_incomplete(b: Seq<u8>, k: int)
    requires
        chunk_header_of(b) matches Ok(Some(h)) && h.line_len == b.len(),
        0 <= k < b.len(),
    ensures
        chunk_header_of(b.subrange(0, k)) == Ok::<Option<ChunkHdr>, DecoderError>(None),
{
    if let Ok(Some(h)) = chunk_header_of(b) {
        lemma_scan_on_prefix(b, k, 0, initial_scan(), h);
    }
}

} // verus!
