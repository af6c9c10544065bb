//! The `Encapsulated` header: an ordered list of named byte offsets that
//! delimits the HTTP parts inside an ICAP message.
use crate::ascii::{COMMA, DIGIT_0, DIGIT_9, EQUALS, HYPHEN, LOWER_A, LOWER_Z, SP};
use crate::header::append_bytes;
use crate::decoder::{lemma_skip_blanks, matches_at, skip_blanks, skip_char, skip_whitespace};
use crate::errors::{DecoderError, EncapsulatedError};
use crate::numbers::{parse_unsigned, parse_unsigned_at, radix_text, write_radix};
use crate::text::{
    null_body, null_body_bytes, opt_body, opt_body_bytes, req_body, req_body_bytes, req_hdr,
    req_hdr_bytes, res_body, res_body_bytes, res_hdr, res_hdr_bytes,
};
use vstd::prelude::*;

verus! {

/// One entity of an `Encapsulated` list with its offset.
#[derive(Debug, Copy, Clone, PartialEq, Eq, Structural)]
pub enum EncapsulatedEntity {
    ReqHdr(usize),
    ReqBody(usize),
    ResHdr(usize),
    ResBody(usize),
    NullBody(usize),
    OptBody(usize),
}

impl EncapsulatedEntity {
    pub open spec fn spec_offset(&self) -> usize {
        match *self {
            EncapsulatedEntity::ReqHdr(o) => o,
            EncapsulatedEntity::ReqBody(o) => o,
            EncapsulatedEntity::ResHdr(o) => o,
            EncapsulatedEntity::ResBody(o) => o,
            EncapsulatedEntity::NullBody(o) => o,
            EncapsulatedEntity::OptBody(o) => o,
        }
    }

    /// A body kind: `req-body`, `res-body`, `null-body` or `opt-body`.
    pub open spec fn spec_is_body(&self) -> bool {
        *self is ReqBody || *self is ResBody || *self is NullBody || *self is OptBody
    }

    /// The entity's name as it is written in the header.
    pub open spec fn name(self) -> Seq<u8> {
        match self {
            EncapsulatedEntity::ReqHdr(_) => req_hdr(),
            EncapsulatedEntity::ReqBody(_) => req_body(),
            EncapsulatedEntity::ResHdr(_) => res_hdr(),
            EncapsulatedEntity::ResBody(_) => res_body(),
            EncapsulatedEntity::NullBody(_) => null_body(),
            EncapsulatedEntity::OptBody(_) => opt_body(),
        }
    }

    #[verifier::when_used_as_spec(spec_offset)]
    pub fn offset(&self) -> (r: usize)
        ensures
            r == self.spec_offset(),
    {
        match *self {
            EncapsulatedEntity::ReqHdr(o) => o,
            EncapsulatedEntity::ReqBody(o) => o,
            EncapsulatedEntity::ResHdr(o) => o,
            EncapsulatedEntity::ResBody(o) => o,
            EncapsulatedEntity::NullBody(o) => o,
            EncapsulatedEntity::OptBody(o) => o,
        }
    }

    pub fn is_req_hdr(&self) -> (r: bool)
        ensures
            r == (*self is ReqHdr),
    {
        matches!(self, EncapsulatedEntity::ReqHdr(_))
    }

    pub fn is_req_body(&self) -> (r: bool)
        ensures
            r == (*self is ReqBody),
    {
        matches!(self, EncapsulatedEntity::ReqBody(_))
    }

    pub fn is_res_hdr(&self) -> (r: bool)
        ensures
            r == (*self is ResHdr),
    {
        matches!(self, EncapsulatedEntity::ResHdr(_))
    }

    pub fn is_res_body(&self) -> (r: bool)
        ensures
            r == (*self is ResBody),
    {
        matches!(self, EncapsulatedEntity::ResBody(_))
    }

    pub fn is_null_body(&self) -> (r: bool)
        ensures
            r == (*self is NullBody),
    {
        matches!(self, EncapsulatedEntity::NullBody(_))
    }

    #[verifier::when_used_as_spec(spec_is_body)]
    pub fn is_body(&self) -> (r: bool)
        ensures
            r == self.spec_is_body(),
    {
        matches!(
            self,
            EncapsulatedEntity::NullBody(_) | EncapsulatedEntity::ReqBody(_)
                | EncapsulatedEntity::ResBody(_) | EncapsulatedEntity::OptBody(_)
        )
    }

    pub fn is_hdr(&self) -> (r: bool)
        ensures
            r == (*self is ReqHdr || *self is ResHdr),
    {
        matches!(self, EncapsulatedEntity::ReqHdr(_) | EncapsulatedEntity::ResHdr(_))
    }
}

/// A lower-case letter or a hyphen: the bytes of an entity name.
pub open spec fn is_name_char(c: u8) -> bool {
    (LOWER_A <= c <= LOWER_Z) || c == HYPHEN
}

pub open spec fn skip_name_chars(b: Seq<u8>, i: int) -> int
    decreases b.len() - i,
{
    if 0 <= i < b.len() && is_name_char(b[i]) {
        skip_name_chars(b, i + 1)
    } else {
        i
    }
}

pub open spec fn skip_digit_chars(b: Seq<u8>, i: int) -> int
    decreases b.len() - i,
{
    if 0 <= i < b.len() && DIGIT_0 <= b[i] <= DIGIT_9 {
        skip_digit_chars(b, i + 1)
    } else {
        i
    }
}

/// The entity with the name `name` and the offset written `digits`.
pub open spec fn entity_of(name: Seq<u8>, digits: Seq<u8>) -> Result<
    EncapsulatedEntity,
    EncapsulatedError,
> {
    match parse_unsigned(digits, 10) {
        None => Err(EncapsulatedError::BadOffset),
        Some(off) => if name == req_hdr() {
            Ok(EncapsulatedEntity::ReqHdr(off))
        } else if name == req_body() {
            Ok(EncapsulatedEntity::ReqBody(off))
        } else if name == res_hdr() {
            Ok(EncapsulatedEntity::ResHdr(off))
        } else if name == res_body() {
            Ok(EncapsulatedEntity::ResBody(off))
        } else if name == null_body() {
            Ok(EncapsulatedEntity::NullBody(off))
        } else if name == opt_body() {
            Ok(EncapsulatedEntity::OptBody(off))
        } else {
            Err(EncapsulatedError::BadName)
        },
    }
}

/// Reading one entity at position `i` (after a `,` when `delim`): the
/// position after it and the entity, or nothing when only blanks are left.
pub open spec fn entity_at(b: Seq<u8>, i: int, delim: bool) -> Result<
    (int, Option<EncapsulatedEntity>),
    EncapsulatedError,
> {
    let a = skip_blanks(b, i);
    if a >= b.len() {
        Ok((a, None))
    } else if delim && b[a] != COMMA {
        Err(EncapsulatedError::NoDelimiter)
    } else {
        let n0 = skip_blanks(b, if delim { a + 1 } else { a });
        let n1 = skip_name_chars(b, n0);
        let q = skip_blanks(b, n1);
        let d0 = skip_blanks(b, q + 1);
        let d1 = skip_digit_chars(b, d0);
        if n1 == n0 {
            Err(EncapsulatedError::EmptyName)
        } else if q >= b.len() || b[q] != EQUALS {
            Err(EncapsulatedError::NoEquals)
        } else if d1 == d0 {
            Err(EncapsulatedError::NoOffset)
        } else {
            match entity_of(b.subrange(n0, n1), b.subrange(d0, d1)) {
                Ok(e) => Ok((d1, Some(e))),
                Err(x) => Err(x),
            }
        }
    }
}

/// The entities read from position `i` on, appended to `acc`.
pub open spec fn entities_from(b: Seq<u8>, i: int, delim: bool, acc: Seq<EncapsulatedEntity>) -> Result<
    Seq<EncapsulatedEntity>,
    EncapsulatedError,
>
    decreases b.len() - i,
{
    if i < 0 || i >= b.len() {
        Ok(acc)
    } else {
        match entity_at(b, i, delim) {
            Err(x) => Err(x),
            Ok((j, None)) => Ok(acc),
            Ok((j, Some(e))) => if j <= i || j > b.len() {
                Ok(acc)
            } else {
                entities_from(b, j, true, acc.push(e))
            },
        }
    }
}

/// Offsets that never decrease along the list.
pub open spec fn offsets_non_decreasing(l: Seq<EncapsulatedEntity>) -> bool {
    forall|k: int| 0 <= k < l.len() - 1 ==> #[trigger] l[k].spec_offset() <= l[k + 1].spec_offset()
}

/// The list that parsing the `Encapsulated` value `b` gives, appended to `acc`.
pub open spec fn parse_list(b: Seq<u8>, acc: Seq<EncapsulatedEntity>) -> Result<
    Seq<EncapsulatedEntity>,
    EncapsulatedError,
> {
    match entities_from(b, 0, false, acc) {
        Err(x) => Err(x),
        Ok(l) => if l.len() == 0 {
            Err(EncapsulatedError::NoEntities)
        } else if !offsets_non_decreasing(l) {
            Err(EncapsulatedError::NonIncreasingOffsets)
        } else {
            Ok(l)
        },
    }
}

fn skip_name(buf: &[u8], i: &mut usize)
    ensures
        *final(i) == skip_name_chars(buf@, *old(i) as int),
{
    while *i < buf.len() && ((LOWER_A <= buf[*i] && buf[*i] <= LOWER_Z) || buf[*i] == HYPHEN)
        invariant
            skip_name_chars(buf@, *i as int) == skip_name_chars(buf@, *old(i) as int),
        decreases buf@.len() - *i,
    {
        *i = *i + 1;
    }
}

fn skip_offset(buf: &[u8], i: &mut usize)
    ensures
        *final(i) == skip_digit_chars(buf@, *old(i) as int),
{
    while *i < buf.len() && DIGIT_0 <= buf[*i] && buf[*i] <= DIGIT_9
        invariant
            skip_digit_chars(buf@, *i as int) == skip_digit_chars(buf@, *old(i) as int),
        decreases buf@.len() - *i,
    {
        *i = *i + 1;
    }
}

proof fn lemma_skip_name_chars(b: Seq<u8>, i: int)
    requires
        0 <= i <= b.len(),
    ensures
        i <= skip_name_chars(b, i) <= b.len(),
    decreases b.len() - i,
{
    if i < b.len() && is_name_char(b[i]) {
        lemma_skip_name_chars(b, i + 1);
    }
}

proof fn lemma_skip_digit_chars(b: Seq<u8>, i: int)
    requires
        0 <= i <= b.len(),
    ensures
        i <= skip_digit_chars(b, i) <= b.len(),
    decreases b.len() - i,
{
    if i < b.len() && DIGIT_0 <= b[i] <= DIGIT_9 {
        lemma_skip_digit_chars(b, i + 1);
    }
}

fn name_is(buf: &[u8], start: usize, end: usize, w: &[u8]) -> (r: bool)
    requires
        start <= end <= buf@.len(),
    ensures
        r == (buf@.subrange(start as int, end as int) == w@),
{
    if end - start != w.len() {
        assert(buf@.subrange(start as int, end as int).len() != w@.len());
        return false;
    }
    matches_at(buf, start, w)
}

fn try_from_bytes(buf: &[u8], n0: usize, n1: usize, d0: usize, d1: usize) -> (r: Result<
    EncapsulatedEntity,
    EncapsulatedError,
>)
    requires
        n0 <= n1 <= buf@.len(),
        d0 <= d1 <= buf@.len(),
    ensures
        r == entity_of(buf@.subrange(n0 as int, n1 as int), buf@.subrange(d0 as int, d1 as int)),
{
    let off = match parse_unsigned_at(buf, d0, d1, 10) {
        Some(v) => v,
        None => {
            return Err(EncapsulatedError::BadOffset);
        },
    };
    if name_is(buf, n0, n1, req_hdr_bytes().as_slice()) {
        Ok(EncapsulatedEntity::ReqHdr(off))
    } else if name_is(buf, n0, n1, req_body_bytes().as_slice()) {
        Ok(EncapsulatedEntity::ReqBody(off))
    } else if name_is(buf, n0, n1, res_hdr_bytes().as_slice()) {
        Ok(EncapsulatedEntity::ResHdr(off))
    } else if name_is(buf, n0, n1, res_body_bytes().as_slice()) {
        Ok(EncapsulatedEntity::ResBody(off))
    } else if name_is(buf, n0, n1, null_body_bytes().as_slice()) {
        Ok(EncapsulatedEntity::NullBody(off))
    } else if name_is(buf, n0, n1, opt_body_bytes().as_slice()) {
        Ok(EncapsulatedEntity::OptBody(off))
    } else {
        Err(EncapsulatedError::BadName)
    }
}

/// Reads one entity at position `i`.
fn parse_ee(buf: &[u8], i: usize, delimiter: bool) -> (r: Result<
    (usize, Option<EncapsulatedEntity>),
    EncapsulatedError,
>)
    requires
        i <= buf@.len(),
    ensures
        match r {
            Ok((j, e)) => entity_at(buf@, i as int, delimiter) == Ok::<
                (int, Option<EncapsulatedEntity>),
                EncapsulatedError,
            >((j as int, e)) && i <= j <= buf@.len() && (e is Some ==> j > i),
            Err(x) => entity_at(buf@, i as int, delimiter) == Err::<
                (int, Option<EncapsulatedEntity>),
                EncapsulatedError,
            >(x),
        },
{
    let mut k = i;
    proof {
        lemma_skip_blanks(buf@, i as int);
    }
    skip_whitespace(buf, &mut k);
    if k == buf.len() {
        return Ok((k, None));
    }
    let a = k;
    if delimiter {
        skip_char(buf, &mut k, COMMA);
        if k == a {
            return Err(EncapsulatedError::NoDelimiter);
        }
    }
    proof {
        lemma_skip_blanks(buf@, k as int);
    }
    skip_whitespace(buf, &mut k);
    let n0 = k;
    proof {
        lemma_skip_name_chars(buf@, k as int);
    }
    skip_name(buf, &mut k);
    let n1 = k;
    proof {
        lemma_skip_blanks(buf@, k as int);
    }
    skip_whitespace(buf, &mut k);
    let q = k;
    if n1 == n0 {
        return Err(EncapsulatedError::EmptyName);
    }
    skip_char(buf, &mut k, EQUALS);
    if k == q {
        return Err(EncapsulatedError::NoEquals);
    }
    proof {
        lemma_skip_blanks(buf@, k as int);
    }
    skip_whitespace(buf, &mut k);
    let d0 = k;
    proof {
        lemma_skip_digit_chars(buf@, k as int);
    }
    skip_offset(buf, &mut k);
    let d1 = k;
    if d1 == d0 {
        return Err(EncapsulatedError::NoOffset);
    }
    match try_from_bytes(buf, n0, n1, d0, d1) {
        Ok(e) => Ok((d1, Some(e))),
        Err(x) => Err(x),
    }
}

fn check_offsets(list: &Vec<EncapsulatedEntity>) -> (r: bool)
    ensures
        r == offsets_non_decreasing(list@),
{
    let n = list.len();
    if n == 0 {
        return true;
    }
    let mut k: usize = 0;
    while k < n - 1
        invariant
            n == list@.len() > 0,
            k <= n - 1,
            forall|j: int| 0 <= j < k ==> #[trigger] list@[j].spec_offset() <= list@[j
                + 1].spec_offset(),
        decreases n - 1 - k,
    {
        if list[k + 1].offset() < list[k].offset() {
            return false;
        }
        k = k + 1;
    }
    true
}

/// Parses the `Encapsulated` value `buf` and appends its entities to `list`.
fn parse_list_into(buf: &[u8], list: &mut Vec<EncapsulatedEntity>) -> (r: Result<
    (),
    EncapsulatedError,
>)
    ensures
        match parse_list(buf@, old(list)@) {
            Ok(l) => r is Ok && final(list)@ == l,
            Err(x) => r == Err::<(), EncapsulatedError>(x),
        },
{
    let mut i: usize = 0;
    let mut delimiter = false;
    while i < buf.len()
        invariant
            i <= buf@.len(),
            entities_from(buf@, i as int, delimiter, list@) == entities_from(
                buf@,
                0,
                false,
                old(list)@,
            ),
        decreases buf@.len() - i,
    {
        match parse_ee(buf, i, delimiter) {
            Err(x) => {
                return Err(x);
            },
            Ok((j, ee)) => {
                match ee {
                    Some(e) => {
                        list.push(e);
                        i = j;
                    },
                    None => {
                        i = buf.len();
                    },
                }
            },
        }
        delimiter = true;
    }
    if list.len() == 0 {
        return Err(EncapsulatedError::NoEntities);
    }
    if !check_offsets(list) {
        return Err(EncapsulatedError::NonIncreasingOffsets);
    }
    Ok(())
}

/// The entities of a message's `Encapsulated` header, in order.
#[derive(Debug, Clone, Default)]
pub struct EeList(pub Vec<EncapsulatedEntity>);

impl View for EeList {
    type V = Seq<EncapsulatedEntity>;

    open spec fn view(&self) -> Seq<EncapsulatedEntity> {
        self.0@
    }
}

impl EeList {
    pub fn new() -> (r: EeList)
        ensures
            r@ == Seq::<EncapsulatedEntity>::empty(),
    {
        EeList(Vec::new())
    }

    /// The entities, in order.
    pub fn iter(&self) -> (r: &[EncapsulatedEntity])
        ensures
            r@ == self@,
    {
        self.0.as_slice()
    }

    pub fn clear(&mut self)
        ensures
            final(self)@ == Seq::<EncapsulatedEntity>::empty(),
    {
        self.0.clear();
    }

    pub fn len(&self) -> (r: usize)
        ensures
            r == self@.len(),
    {
        self.0.len()
    }

    pub fn is_empty(&self) -> (r: bool)
        ensures
            r == (self@.len() == 0),
    {
        self.0.len() == 0
    }

    /// Parses an `Encapsulated` value and appends its entities. On success
    /// the whole list is non-empty and its offsets never decrease.
    pub fn parse_append(&mut self, buf: &[u8]) -> (r: Result<(), DecoderError>)
        ensures
            match parse_list(buf@, old(self)@) {
                Ok(l) => r is Ok && final(self)@ == l,
                Err(x) => r == Err::<(), DecoderError>(DecoderError::BadEncapsulatedHdr(x)),
            },
    {
        match parse_list_into(buf, &mut self.0) {
            Ok(()) => Ok(()),
            Err(x) => Err(DecoderError::BadEncapsulatedHdr(x)),
        }
    }

    /// The entity at `i`.
    pub fn get_unchecked(&self, i: usize) -> (r: EncapsulatedEntity)
        requires
            i < self@.len(),
        ensures
            r == self@[i as int],
    {
        self.0[i]
    }

    /// The last entity.
    pub fn get_last(&self) -> (r: EncapsulatedEntity)
        requires
            self@.len() > 0,
        ensures
            r == self@.last(),
    {
        self.0[self.0.len() - 1]
    }

    /// The offset at which the body begins: that of the last entity, which
    /// must be `req-body`, `res-body` or `null-body`. `None` for an empty list.
    pub fn get_body_offset(&self) -> (r: Result<Option<usize>, DecoderError>)
        ensures
            self@.len() == 0 ==> r == Ok::<Option<usize>, DecoderError>(None),
            self@.len() > 0 ==> match self@.last() {
                EncapsulatedEntity::ReqBody(o) => r == Ok::<Option<usize>, DecoderError>(Some(o)),
                EncapsulatedEntity::ResBody(o) => r == Ok::<Option<usize>, DecoderError>(Some(o)),
                EncapsulatedEntity::NullBody(o) => r == Ok::<Option<usize>, DecoderError>(Some(o)),
                _ => r == Err::<Option<usize>, DecoderError>(
                    DecoderError::BadEncapsulatedHdr(EncapsulatedError::UnexpectedLastEntity),
                ),
            },
    {
        if self.0.len() == 0 {
            return Ok(None);
        }
        match self.0[self.0.len() - 1] {
            EncapsulatedEntity::ReqBody(off) => Ok(Some(off)),
            EncapsulatedEntity::ResBody(off) => Ok(Some(off)),
            EncapsulatedEntity::NullBody(off) => Ok(Some(off)),
            _ => Err(DecoderError::BadEncapsulatedHdr(EncapsulatedError::UnexpectedLastEntity)),
        }
    }

    /// The last entity, if any.
    pub fn last(&self) -> (r: Option<EncapsulatedEntity>)
        ensures
            r == if self@.len() == 0 {
                None
            } else {
                Some(self@.last())
            },
    {
        if self.0.len() == 0 {
            None
        } else {
            Some(self.0[self.0.len() - 1])
        }
    }
}

/// Parses an `Encapsulated` value into a fresh list.
pub fn parse_encapsulated_list(buf: &[u8]) -> (r: Result<Vec<EncapsulatedEntity>, DecoderError>)
    ensures
        match parse_list(buf@, Seq::empty()) {
            Ok(l) => r matches Ok(v) && v@ == l,
            Err(x) => r == Err::<Vec<EncapsulatedEntity>, DecoderError>(
                DecoderError::BadEncapsulatedHdr(x),
            ),
        },
{
    let mut list = EeList::new();
    match list.parse_append(buf) {
        Ok(()) => Ok(list.0),
        Err(e) => Err(e),
    }
}

impl EncapsulatedEntity {
    /// The entity's name as it is written in the header.
    pub fn name_bytes(&self) -> (r: Vec<u8>)
        ensures
            r@ == self.name(),
    {
        match *self {
            EncapsulatedEntity::ReqHdr(_) => req_hdr_bytes(),
            EncapsulatedEntity::ReqBody(_) => req_body_bytes(),
            EncapsulatedEntity::ResHdr(_) => res_hdr_bytes(),
            EncapsulatedEntity::ResBody(_) => res_body_bytes(),
            EncapsulatedEntity::NullBody(_) => null_body_bytes(),
            EncapsulatedEntity::OptBody(_) => opt_body_bytes(),
        }
    }
}

/// One entity written as `<name>=<offset>`.
pub open spec fn entity_text(e: EncapsulatedEntity) -> Seq<u8> {
    e.name() + seq![EQUALS] + radix_text(e.spec_offset() as nat, 10)
}

/// A list written as its entities joined by `, `.
pub open spec fn list_text(l: Seq<EncapsulatedEntity>) -> Seq<u8>
    decreases l.len(),
{
    if l.len() == 0 {
        Seq::empty()
    } else if l.len() == 1 {
        entity_text(l[0])
    } else {
        list_text(l.drop_last()) + seq![COMMA, SP] + entity_text(l.last())
    }
}

/// Writes a list as an `Encapsulated` value: `<name>=<offset>` joined by `, `.
pub fn encode_list(l: &[EncapsulatedEntity]) -> (r: Vec<u8>)
    ensures
        r@ == list_text(l@),
{
    let mut out: Vec<u8> = Vec::new();
    let mut k: usize = 0;
    while k < l.len()
        invariant
            k <= l@.len(),
            out@ == list_text(l@.subrange(0, k as int)),
        decreases l@.len() - k,
    {
        let ghost before = out@;
        if k > 0 {
            out.push(COMMA);
            out.push(SP);
        }
        let e = l[k];
        append_bytes(&mut out, e.name_bytes().as_slice());
        out.push(EQUALS);
        write_radix(e.offset(), 10, &mut out);
        proof {
            let s = l@.subrange(0, k + 1);
            assert(s.drop_last() =~= l@.subrange(0, k as int));
            assert(s.last() == e);
            if k == 0 {
                assert(out@ =~= entity_text(e));
            } else {
                assert(out@ =~= before + seq![COMMA, SP] + entity_text(e));
            }
        }
        k = k + 1;
    }
    assert(l@.subrange(0, k as int) =~= l@);
    out
}

/// A successful parse gives a non-empty list whose offsets never decrease.
pub proof fn lemma_parsed_list_shape(b: Seq<u8>, acc: Seq<EncapsulatedEntity>)
    ensures
        parse_list(b, acc) matches Ok(l) ==> l.len() > 0 && offsets_non_decreasing(l),
{
}

/// What precedes the `k`-th entity in a written list: nothing or `, `.
pub open spec fn separator(k: int) -> Seq<u8> {
    if k == 0 {
        Seq::empty()
    } else {
        seq![COMMA, SP]
    }
}

/// The written list from the `k`-th entity on.
pub open spec fn rest_text(l: Seq<EncapsulatedEntity>, k: int) -> Seq<u8>
    decreases l.len() - k,
{
    if k < 0 || k >= l.len() {
        Seq::empty()
    } else {
        separator(k) + entity_text(l[k]) + rest_text(l, k + 1)
    }
}

proof fn lemma_list_text_step(l: Seq<EncapsulatedEntity>, k: int)
    requires
        0 <= k < l.len(),
    ensures
        list_text(l.subrange(0, k + 1)) == list_text(l.subrange(0, k)) + separator(k) + entity_text(
            l[k],
        ),
{
    let t = l.subrange(0, k + 1);
    assert(t.drop_last() =~= l.subrange(0, k));
    if k == 0 {
        assert(list_text(l.subrange(0, 0)) == Seq::<u8>::empty());
        assert(list_text(t) =~= list_text(l.subrange(0, k)) + separator(k) + entity_text(l[k]));
    }
}

proof fn lemma_text_split(l: Seq<EncapsulatedEntity>, k: int)
    requires
        0 <= k <= l.len(),
    ensures
        list_text(l.subrange(0, k)) + rest_text(l, k) == list_text(l),
    decreases l.len() - k,
{
    if k == l.len() {
        assert(l.subrange(0, k) =~= l);
        assert(list_text(l.subrange(0, k)) + rest_text(l, k) =~= list_text(l));
    } else {
        lemma_text_split(l, k + 1);
        lemma_list_text_step(l, k);
        assert(list_text(l.subrange(0, k)) + rest_text(l, k) =~= list_text(l.subrange(0, k + 1))
            + rest_text(l, k + 1));
    }
}

proof fn lemma_skip_name_run(s: Seq<u8>, i: int, j: int)
    requires
        0 <= i <= j <= s.len(),
        forall|k: int| i <= k < j ==> is_name_char(#[trigger] s[k]),
        j == s.len() || !is_name_char(s[j]),
    ensures
        skip_name_chars(s, i) == j,
    decreases j - i,
{
    if i < j {
        lemma_skip_name_run(s, i + 1, j);
    }
}

proof fn lemma_skip_digit_run(s: Seq<u8>, i: int, j: int)
    requires
        0 <= i <= j <= s.len(),
        forall|k: int| i <= k < j ==> DIGIT_0 <= #[trigger] s[k] <= DIGIT_9,
        j == s.len() || !(DIGIT_0 <= s[j] <= DIGIT_9),
    ensures
        skip_digit_chars(s, i) == j,
    decreases j - i,
{
    if i < j {
        lemma_skip_digit_run(s, i + 1, j);
    }
}

proof fn lemma_name_facts(e: EncapsulatedEntity)
    ensures
        e.name().len() > 0,
        forall|k: int| 0 <= k < e.name().len() ==> is_name_char(#[trigger] e.name()[k]),
        entity_of(e.name(), radix_text(e.spec_offset() as nat, 10)) == Ok::<
            EncapsulatedEntity,
            EncapsulatedError,
        >(e),
{
    crate::numbers::lemma_radix_text_parses(e.spec_offset() as nat, 10);
    let d = radix_text(e.spec_offset() as nat, 10);
    assert(crate::numbers::unsigned_digits(d) == d);
    assert(req_hdr()[2] != res_hdr()[2]);
    assert(req_body()[2] != res_body()[2]);
    assert(req_body()[0] != opt_body()[0]);
    assert(res_body()[0] != opt_body()[0]);
    assert(req_hdr().len() != req_body().len());
    assert(req_hdr().len() != null_body().len());
    assert(req_body().len() != null_body().len());
}

proof fn lemma_entity_at_text(
    s: Seq<u8>,
    p: int,
    k: int,
    e: EncapsulatedEntity,
    r: Seq<u8>,
)
    requires
        0 <= p <= s.len(),
        k >= 0,
        s == s.subrange(0, p) + separator(k) + entity_text(e) + r,
        r.len() == 0 || r[0] == COMMA,
    ensures
        entity_at(s, p, k > 0) == Ok::<(int, Option<EncapsulatedEntity>), EncapsulatedError>(
            (p + separator(k).len() + entity_text(e).len(), Some(e)),
        ),
{
    lemma_name_facts(e);
    let name = e.name();
    let d = radix_text(e.spec_offset() as nat, 10);
    crate::numbers::lemma_radix_text_parses(e.spec_offset() as nat, 10);
    let q = p + separator(k).len();
    let nl = name.len() as int;
    let dl = d.len() as int;
    let end = q + nl + 1 + dl;
    assert(s.len() == end + r.len());
    assert forall|i: int| 0 <= i < nl implies s[q + i] == name[i] by {
        assert(s[q + i] == (separator(k) + entity_text(e))[separator(k).len() + i]);
    }
    assert(s[q + nl] == EQUALS);
    assert forall|i: int| 0 <= i < dl implies s[q + nl + 1 + i] == d[i] by {
        assert(entity_text(e)[nl + 1 + i] == d[i]);
    }
    if k > 0 {
        assert(s[p] == COMMA);
        assert(s[p + 1] == SP);
    }
    if end < s.len() {
        assert(s[end] == r[0]);
    }
    assert(s[q] == name[0]);
    assert(skip_blanks(s, p) == p);
    if k > 0 {
        assert(skip_blanks(s, p + 1) == skip_blanks(s, p + 2));
        assert(skip_blanks(s, p + 2) == p + 2);
    }
    lemma_skip_name_run(s, q, q + nl);
    assert(skip_blanks(s, q + nl) == q + nl);
    assert(s[q + nl + 1] == d[0]);
    assert(skip_blanks(s, q + nl + 1) == q + nl + 1);
    assert forall|i: int| q + nl + 1 <= i < end implies DIGIT_0 <= #[trigger] s[i] <= DIGIT_9 by {
        assert(s[i] == d[i - (q + nl + 1)]);
        assert(crate::numbers::is_digit_of(d[i - (q + nl + 1)], 10));
    }
    lemma_skip_digit_run(s, q + nl + 1, end);
    assert(s.subrange(q, q + nl) =~= name);
    assert(s.subrange(q + nl + 1, end) =~= d);
}

proof fn lemma_entities_from_step(
    s: Seq<u8>,
    p: int,
    delim: bool,
    acc: Seq<EncapsulatedEntity>,
    j: int,
    e: EncapsulatedEntity,
)
    requires
        0 <= p < j <= s.len(),
        entity_at(s, p, delim) == Ok::<(int, Option<EncapsulatedEntity>), EncapsulatedError>(
            (j, Some(e)),
        ),
    ensures
        entities_from(s, p, delim, acc) == entities_from(s, j, true, acc.push(e)),
{
}

proof fn lemma_entities_from_text(l: Seq<EncapsulatedEntity>, k: int)
    requires
        0 <= k <= l.len(),
    ensures
        entities_from(list_text(l), list_text(l.subrange(0, k)).len() as int, k > 0, l.subrange(0, k))
            == Ok::<Seq<EncapsulatedEntity>, EncapsulatedError>(l),
    decreases l.len() - k,
{
    let s = list_text(l);
    lemma_text_split(l, k);
    let p = list_text(l.subrange(0, k)).len() as int;
    if k == l.len() {
        assert(l.subrange(0, k) =~= l);
    } else {
        lemma_entities_from_text(l, k + 1);
        lemma_list_text_step(l, k);
        let r = rest_text(l, k + 1);
        assert(rest_text(l, k) == separator(k) + entity_text(l[k]) + r);
        assert(s.subrange(0, p) =~= list_text(l.subrange(0, k)));
        assert(s =~= s.subrange(0, p) + separator(k) + entity_text(l[k]) + r);
        if k + 1 < l.len() {
            assert(r[0] == COMMA);
        }
        lemma_entity_at_text(s, p, k, l[k], r);
        let j = p + separator(k).len() + entity_text(l[k]).len();
        assert(j == list_text(l.subrange(0, k + 1)).len());
        lemma_name_facts(l[k]);
        assert(entity_text(l[k]).len() > 0);
        lemma_entities_from_step(s, p, k > 0, l.subrange(0, k), j, l[k]);
        assert(l.subrange(0, k).push(l[k]) =~= l.subrange(0, k + 1));
    }
}

/// Writing a parsed `Encapsulated` list as `<name>=<offset>` joined by `, `
/// and parsing the text again gives the same list.
pub proof fn lemma_list_text_round_trip(b: Seq<u8>)
    ensures
        parse_list(b, Seq::empty()) matches Ok(l) ==> parse_list(list_text(l), Seq::empty())
            == Ok::<Seq<EncapsulatedEntity>, EncapsulatedError>(l),
{
    if let Ok(l) = parse_list(b, Seq::empty()) {
        lemma_entities_from_text(l, 0);
        assert(l.subrange(0, 0) =~= Seq::<EncapsulatedEntity>::empty());
    }
}

} // verus!
