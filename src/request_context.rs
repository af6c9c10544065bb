//! The per-message request context: the received bytes, the decoded ICAP
//! and HTTP parts, and what the adaptation callback staged for the response.
use crate::bindings::{
    buf_bytes, buf_clear, buf_extend, buf_len, buf_reserve, buf_with_capacity, bytes_mut_contents,
};
use crate::decoder::{decode_allow, decode_preview, has_word, preview_from, Allow, DecodingStatus};
use crate::encapsulated::{offsets_non_decreasing, parse_list, EeList, EncapsulatedEntity};
use crate::errors::{DecoderError, EncapsulatedError};
use crate::header::{bytes_eq_ignore_case, eq_ignore_case, HeaderIndicesList, HeaderIterator};
use crate::messages::{
    copy_range,
    decode_http_request, decode_http_response, decode_icap_request, http_request_of,
    http_response_of, icap_head_of, is_fault, HttpRequest, HttpResponse, HttpVersion,
    IcapRequest,
};
use crate::method::Method;
use crate::text::{allow_name, allow_name_bytes, code_204, code_206, encapsulated, encapsulated_bytes, preview_bytes};
use vstd::prelude::*;
use vstd::string::StringSliceAdditionalSpecFns;

verus! {

/// The initial capacity of the receive buffer.
pub const RBUF_CAP: usize = 8192;

/// What the adaptation callback decided.
#[derive(Debug, Copy, Clone, PartialEq, Eq, Structural, Hash)]
pub enum AdaptationDecision {
    /// No adaptation: answer 204.
    NoAdaptation,
    /// Append headers to the HTTP message: answer 206 (or 200 without a body).
    AppendHeaders,
    /// Replace the HTTP message by a response of the callback's own.
    CustomResponse,
}

/// The state of one ICAP message on a connection.
pub struct ReqCtx {
    /// The 1-based number of this message on its connection.
    pub msgs_cnt: usize,
    /// The bytes received for this message.
    pub rbuf: bytes::BytesMut,
    /// The encapsulated HTTP payload of the response.
    pub http_buf: Vec<u8>,
    pub icap_req: IcapRequest,
    pub http_req: HttpRequest,
    pub http_res: HttpResponse,
    pub ee_list: EeList,
    pub preview: Option<usize>,
    pub null_body: bool,
    pub allow_204: bool,
    pub allow_206: bool,
    pub out_icap_status: Option<u16>,
    /// The headers staged for the ICAP response, in the order they were
    /// added and with their names as written: an `http::HeaderMap` would
    /// lower-case every name (and refuses upper-case static names), where
    /// the wire form keeps names such as `ISTag` as the callback wrote them.
    pub out_icap_headers: HeaderIndicesList,
    pub decision: Option<AdaptationDecision>,
    pub out_http_ver: Option<HttpVersion>,
    pub out_http_status: Option<u16>,
    pub out_http_headers: HeaderIndicesList,
    /// Where the body begins, counted from the end of the ICAP head;
    /// `usize::MAX` when there is no body entity.
    pub body_offset: usize,
    /// How many bytes must still arrive before the encapsulated heads are whole.
    pub header_missing_bytes: usize,
}

/// What the ICAP headers of a request say, read up to the `k`-th: the
/// `Encapsulated` entities, the `Preview` size and the `Allow` list.
pub open spec fn icap_headers_upto(hs: Seq<(Seq<u8>, Seq<u8>)>, k: int) -> Result<
    (Seq<EncapsulatedEntity>, Option<usize>, Option<Allow>),
    DecoderError,
>
    decreases k,
{
    if k <= 0 {
        Ok((Seq::empty(), None, None))
    } else {
        match icap_headers_upto(hs, k - 1) {
            Err(e) => Err(e),
            Ok((l, p, a)) => {
                let (n, v) = hs[k - 1];
                if eq_ignore_case(n, encapsulated()) {
                    match parse_list(v, l) {
                        Ok(l2) => Ok((l2, p, a)),
                        Err(x) => Err(DecoderError::BadEncapsulatedHdr(x)),
                    }
                } else if eq_ignore_case(n, crate::text::preview()) {
                    match preview_from(v, 0) {
                        Ok(x) => Ok((l, Some(x), a)),
                        Err(e) => Err(e),
                    }
                } else if eq_ignore_case(n, allow_name()) {
                    let t = Allow { allow_204: has_word(v, code_204()), allow_206: has_word(v, code_206()) };
                    Ok(
                        (
                            l,
                            p,
                            Some(
                                match a {
                                    Some(b) => Allow {
                                        allow_204: b.allow_204 || t.allow_204,
                                        allow_206: b.allow_206 || t.allow_206,
                                    },
                                    None => t,
                                },
                            ),
                        ),
                    )
                } else {
                    Ok((l, p, a))
                }
            },
        }
    }
}

/// The checks on the `Encapsulated` list after all headers are read: the
/// last entity is a body kind, and only OPTIONS may do without the header.
pub open spec fn icap_headers_check(l: Seq<EncapsulatedEntity>, m: Method) -> Result<(), DecoderError> {
    if l.len() > 0 {
        if !l.last().spec_is_body() {
            Err(DecoderError::BadEncapsulatedHdr(EncapsulatedError::LastNotBody))
        } else {
            Ok(())
        }
    } else if m != Method::Options {
        Err(DecoderError::NoEncapsulatedHdr)
    } else {
        Ok(())
    }
}

/// The legal `Encapsulated` shapes of each method.
pub open spec fn ee_shape_ok(m: Method, l: Seq<EncapsulatedEntity>) -> bool {
    match m {
        Method::Options => l.len() == 0 || (l.len() == 1 && l[0] == EncapsulatedEntity::NullBody(0)),
        Method::ReqMod => l.len() == 2 && l[0] == EncapsulatedEntity::ReqHdr(0) && (l[1] is ReqBody
            || l[1] is NullBody),
        Method::RespMod => (l.len() == 2 && l[0] == EncapsulatedEntity::ResHdr(0) && (l[1] is ResBody
            || l[1] is NullBody)) || (l.len() == 3 && l[0] == EncapsulatedEntity::ReqHdr(0)
            && l[1] is ResHdr && (l[2] is ResBody || l[2] is NullBody)),
    }
}

/// What the sanity check of a request gives.
pub open spec fn sanity_of(
    m: Method,
    l: Seq<EncapsulatedEntity>,
    null_body: bool,
    allow_206: bool,
    preview: Option<usize>,
) -> Result<(), DecoderError> {
    if !ee_shape_ok(m, l) {
        Err(DecoderError::BadEncapsulatedHdr(EncapsulatedError::UnexpectedList))
    } else if m != Method::Options && !null_body && !allow_206 {
        Err(DecoderError::NoAllow206)
    } else if m != Method::Options && !null_body && preview != Some(0usize) {
        Err(DecoderError::NoPreview0)
    } else {
        Ok(())
    }
}

impl Default for ReqCtx {
    fn default() -> (r: ReqCtx)
        ensures
            rbuf_of(&r) == Seq::<u8>::empty(),
            r.msgs_cnt == 0,
            r.ee_list@.len() == 0,
            r.icap_req.parsed_len == 0,
            r.decision is None,
    {
        ReqCtx::new()
    }
}

/// The ICAP head in the receive buffer is whole, its headers are well
/// formed, and its `Encapsulated` list passes the sanity check.
pub open spec fn init_accepts(c: &ReqCtx) -> bool {
    match icap_head_of(rbuf_of(c)) {
        Ok(Some((m, u, hs, n))) => match icap_headers_upto(hs, hs.len() as int) {
            Ok((l, p, a)) => icap_headers_check(l, m) is Ok && (l.len() > 0 ==> !(l.last() is OptBody))
                && sanity_of(
                m,
                l,
                l.len() > 0 && l.last() is NullBody,
                match a {
                    Some(x) => x.allow_206,
                    None => c.allow_206,
                },
                p,
            ) is Ok,
            Err(_) => false,
        },
        _ => false,
    }
}

/// The encapsulated HTTP heads that the `Encapsulated` list announces
/// decode from the received bytes.
pub open spec fn entities_ok(c: &ReqCtx) -> bool {
    let l = c.ee_list@;
    let body = encapsulated_bytes_of(c);
    &&& (l.len() > 0 && l[0] is ResHdr ==> http_response_of(body) is Ok)
    &&& (l.len() > 0 && l[0] is ReqHdr ==> match http_request_of(body) {
        Ok(Some(h)) => l.len() == 3 ==> http_response_of(body.subrange(h.4 as int, body.len() as int)) is Ok,
        _ => false,
    })
}

/// What `init` does once the ICAP head (method `m`, headers `hs`, length
/// `n`) is decoded from `len` received bytes: its result `r` and the fields
/// of the context `c` it leaves, given the allowances `a204`, `a206` before.
pub open spec fn init_effect(
    m: Method,
    hs: Seq<(Seq<u8>, Seq<u8>)>,
    n: nat,
    len: nat,
    a204: bool,
    a206: bool,
    r: Result<DecodingStatus, DecoderError>,
    c: &ReqCtx,
) -> bool {
    match icap_headers_upto(hs, hs.len() as int) {
        Err(e) => r == Err::<DecodingStatus, DecoderError>(e),
        Ok((l, p, a)) => match icap_headers_check(l, m) {
            Err(e) => r == Err::<DecodingStatus, DecoderError>(e),
            Ok(()) => {
                let nb = l.len() > 0 && l.last() is NullBody;
                let new204 = match a {
                    Some(x) => x.allow_204,
                    None => a204,
                };
                let new206 = match a {
                    Some(x) => x.allow_206,
                    None => a206,
                };
                &&& c.ee_list@ == l
                &&& c.preview == p
                &&& c.null_body == nb
                &&& c.allow_204 == new204
                &&& c.allow_206 == new206
                &&& if l.len() > 0 && l.last() is OptBody {
                    r == Err::<DecodingStatus, DecoderError>(
                        DecoderError::BadEncapsulatedHdr(EncapsulatedError::UnexpectedLastEntity),
                    )
                } else {
                    &&& c.body_offset == (if l.len() == 0 {
                        usize::MAX
                    } else {
                        l.last().spec_offset()
                    })
                    &&& c.header_missing_bytes as int == (if l.len() > 0 && n + c.body_offset > len {
                        n + c.body_offset - len
                    } else {
                        0int
                    })
                    &&& r == match sanity_of(m, l, nb, new206, p) {
                        Ok(()) => Ok::<DecodingStatus, DecoderError>(DecodingStatus::Complete),
                        Err(e) => Err::<DecodingStatus, DecoderError>(e),
                    }
                }
            },
        },
    }
}

/// The contents of the receive buffer.
pub open spec fn rbuf_of(c: &ReqCtx) -> Seq<u8> {
    bytes_mut_contents(c.rbuf)
}

fn entity_is(e: EncapsulatedEntity, kind: u8) -> (r: bool)
    ensures
        kind == 0 ==> r == (e is ReqHdr),
        kind == 1 ==> r == (e is ReqBody || e is NullBody),
        kind == 2 ==> r == (e is ResHdr),
        kind == 3 ==> r == (e is ResBody || e is NullBody),
{
    match e {
        EncapsulatedEntity::ReqHdr(_) => kind == 0,
        EncapsulatedEntity::ReqBody(_) => kind == 1,
        EncapsulatedEntity::ResHdr(_) => kind == 2,
        EncapsulatedEntity::ResBody(_) => kind == 3,
        EncapsulatedEntity::NullBody(_) => kind == 1 || kind == 3,
        EncapsulatedEntity::OptBody(_) => false,
    }
}

proof fn lemma_headers_err_persists(hs: Seq<(Seq<u8>, Seq<u8>)>, k: int, j: int)
    requires
        0 <= k <= j,
        icap_headers_upto(hs, k) is Err,
    ensures
        icap_headers_upto(hs, j) == icap_headers_upto(hs, k),
    decreases j - k,
{
    if j > k {
        lemma_headers_err_persists(hs, k, j - 1);
    }
}

/// The `Encapsulated` list read from the ICAP headers has offsets that
/// never decrease.
pub proof fn lemma_headers_list_ordered(hs: Seq<(Seq<u8>, Seq<u8>)>, k: int)
    ensures
        icap_headers_upto(hs, k) matches Ok((l, _, _)) ==> offsets_non_decreasing(l),
    decreases k,
{
    if k > 0 {
        lemma_headers_list_ordered(hs, k - 1);
    }
}

impl ReqCtx {
    /// A context with empty buffers and nothing decoded.
    pub fn new() -> (r: ReqCtx)
        ensures
            rbuf_of(&r) == Seq::<u8>::empty(),
            r.msgs_cnt == 0,
            r.ee_list@.len() == 0,
            r.icap_req.parsed_len == 0,
            r.http_req.parsed_len == 0,
            r.http_res.parsed_len == 0,
            r.decision is None,
            r.out_icap_headers@.len() == 0,
            r.out_http_headers@.len() == 0,
    {
        ReqCtx {
            msgs_cnt: 0,
            rbuf: buf_with_capacity(RBUF_CAP),
            http_buf: Vec::with_capacity(RBUF_CAP),
            icap_req: IcapRequest {
                method: Method::Options,
                uri: Vec::new(),
                version: crate::method::Version::Icap10,
                headers: HeaderIndicesList::new(),
                parsed_len: 0,
            },
            http_req: HttpRequest {
                method: Vec::new(),
                uri: Vec::new(),
                version: HttpVersion::Http11,
                headers: HeaderIndicesList::new(),
                parsed_len: 0,
            },
            http_res: HttpResponse {
                version: HttpVersion::Http11,
                status: 0,
                headers: HeaderIndicesList::new(),
                parsed_len: 0,
            },
            ee_list: EeList::new(),
            preview: None,
            null_body: false,
            allow_204: false,
            allow_206: false,
            out_icap_status: None,
            out_icap_headers: HeaderIndicesList::new(),
            decision: None,
            out_http_ver: None,
            out_http_status: None,
            out_http_headers: HeaderIndicesList::new(),
            body_offset: 0,
            header_missing_bytes: 0,
        }
    }

    /// Appends received bytes to the receive buffer.
    pub fn append_received(&mut self, data: &[u8])
        requires
            rbuf_of(old(self)).len() + data@.len() <= usize::MAX,
        ensures
            rbuf_of(final(self)) == rbuf_of(old(self)) + data@,
            final(self).icap_req == old(self).icap_req,
            final(self).ee_list == old(self).ee_list,
            final(self).body_offset == old(self).body_offset,
            final(self).null_body == old(self).null_body,
    {
        buf_extend(&mut self.rbuf, data);
    }

    /// The number of bytes received.
    pub fn received_len(&self) -> (r: usize)
        ensures
            r == rbuf_of(self).len(),
    {
        buf_len(&self.rbuf)
    }

    /// The received bytes.
    pub fn received(&self) -> (r: &[u8])
        ensures
            r@ == rbuf_of(self),
    {
        buf_bytes(&self.rbuf)
    }

    /// Reads the ICAP headers that the core interprets: `Encapsulated`,
    /// `Preview` and `Allow`.
    fn parse_icap_headers(&mut self) -> (r: Result<(), DecoderError>)
        ensures
            match icap_headers_upto(old(self).icap_req.headers@, old(self).icap_req.headers@.len() as int) {
                Err(e) => r == Err::<(), DecoderError>(e),
                Ok((l, p, a)) => match icap_headers_check(l, old(self).icap_req.method) {
                    Err(e) => r == Err::<(), DecoderError>(e),
                    Ok(()) => r is Ok && final(self).ee_list@ == l && final(self).preview == p
                        && final(self).null_body == (l.len() > 0 && l.last() is NullBody)
                        && final(self).allow_204 == (match a {
                            Some(x) => x.allow_204,
                            None => old(self).allow_204,
                        }) && final(self).allow_206 == (match a {
                            Some(x) => x.allow_206,
                            None => old(self).allow_206,
                        }),
                },
            },
            final(self).icap_req == old(self).icap_req,
            rbuf_of(final(self)) == rbuf_of(old(self)),
            final(self).body_offset == old(self).body_offset,
            final(self).header_missing_bytes == old(self).header_missing_bytes,
    {
        let ghost hs = self.icap_req.headers@;
        let mut ee_list = EeList::new();
        let mut preview: Option<usize> = None;
        let mut allow_hdr: Option<Allow> = None;
        let enc = encapsulated_bytes();
        let prv = preview_bytes();
        let alw = allow_name_bytes();
        let n = self.icap_req.headers.vec.len();
        let mut k: usize = 0;
        while k < n
            invariant
                n == hs.len(),
                hs == self.icap_req.headers@,
                k <= n,
                enc@ == encapsulated(),
                prv@ == crate::text::preview(),
                alw@ == allow_name(),
                icap_headers_upto(hs, k as int) == Ok::<
                    (Seq<EncapsulatedEntity>, Option<usize>, Option<Allow>),
                    DecoderError,
                >((ee_list@, preview, allow_hdr)),
            decreases n - k,
        {
            let h = &self.icap_req.headers.vec[k];
            assert(hs[k as int] == (h.name@, h.value@));
            if bytes_eq_ignore_case(h.name.as_slice(), enc.as_slice()) {
                if let Err(e) = ee_list.parse_append(h.value.as_slice()) {
                    proof {
                        lemma_headers_err_persists(hs, k + 1, n as int);
                    }
                    return Err(e);
                }
            } else if bytes_eq_ignore_case(h.name.as_slice(), prv.as_slice()) {
                match decode_preview(h.value.as_slice()) {
                    Ok(x) => {
                        preview = Some(x);
                    },
                    Err(e) => {
                        proof {
                            lemma_headers_err_persists(hs, k + 1, n as int);
                        }
                        return Err(e);
                    },
                }
            } else if bytes_eq_ignore_case(h.name.as_slice(), alw.as_slice()) {
                let t = match decode_allow(h.value.as_slice()) {
                    Ok(t) => t,
                    Err(e) => {
                        return Err(e);
                    },
                };
                match allow_hdr {
                    Some(a0) => {
                        let mut a = a0;
                        a.add(&t);
                        allow_hdr = Some(a);
                    },
                    None => {
                        allow_hdr = Some(t);
                    },
                }
            }
            k = k + 1;
        }
        let mut null_body = false;
        if ee_list.len() > 0 {
            let last_ee = ee_list.get_last();
            if !last_ee.is_body() {
                return Err(DecoderError::BadEncapsulatedHdr(EncapsulatedError::LastNotBody));
            }
            null_body = last_ee.is_null_body();
        } else if self.icap_req.method != Method::Options {
            return Err(DecoderError::NoEncapsulatedHdr);
        }
        match allow_hdr {
            Some(a) => {
                self.allow_204 = a.allow_204;
                self.allow_206 = a.allow_206;
            },
            None => {},
        }
        self.ee_list = ee_list;
        self.preview = preview;
        self.null_body = null_body;
        Ok(())
    }

    /// Records where the body begins and how many bytes of the encapsulated
    /// heads are still to come.
    fn alloc_buffer_for_headers(&mut self) -> (r: Result<(), DecoderError>)
        requires
            old(self).icap_req.parsed_len <= rbuf_of(old(self)).len(),
        ensures
            old(self).ee_list@.len() == 0 ==> r is Ok && final(self).body_offset == usize::MAX
                && final(self).header_missing_bytes == 0,
            old(self).ee_list@.len() > 0 ==> match old(self).ee_list@.last() {
                EncapsulatedEntity::ReqBody(o) => r is Ok && final(self).body_offset == o,
                EncapsulatedEntity::ResBody(o) => r is Ok && final(self).body_offset == o,
                EncapsulatedEntity::NullBody(o) => r is Ok && final(self).body_offset == o,
                _ => r == Err::<(), DecoderError>(
                    DecoderError::BadEncapsulatedHdr(EncapsulatedError::UnexpectedLastEntity),
                ),
            },
            r is Ok && old(self).ee_list@.len() > 0 ==> final(self).header_missing_bytes == if old(self).icap_req.parsed_len + final(self).body_offset > rbuf_of(old(self)).len() {
                old(self).icap_req.parsed_len + final(self).body_offset - rbuf_of(old(self)).len()
            } else {
                0
            },
            rbuf_of(final(self)) == rbuf_of(old(self)),
            final(self).icap_req == old(self).icap_req,
            final(self).ee_list == old(self).ee_list,
            final(self).null_body == old(self).null_body,
            final(self).preview == old(self).preview,
            final(self).allow_204 == old(self).allow_204,
            final(self).allow_206 == old(self).allow_206,
    {
        let (body_offset, missing_bytes) = match self.ee_list.get_body_offset()? {
            Some(body_offset) => {
                let already_read_bytes = buf_len(&self.rbuf);
                let header_read_bytes = already_read_bytes - self.icap_req.parsed_len;
                let missing_bytes = if body_offset > header_read_bytes {
                    body_offset - header_read_bytes
                } else {
                    0
                };
                if missing_bytes > 0 && missing_bytes <= usize::MAX - already_read_bytes {
                    buf_reserve(&mut self.rbuf, missing_bytes);
                }
                (body_offset, missing_bytes)
            },
            None => (usize::MAX, 0),
        };
        self.body_offset = body_offset;
        self.header_missing_bytes = missing_bytes;
        Ok(())
    }

    /// Checks the `Encapsulated` shape against the method, and that a request
    /// with a body allows 206 and previews zero bytes.
    pub fn check_sanity(&self) -> (r: Result<(), DecoderError>)
        ensures
            r == sanity_of(
                self.icap_req.method,
                self.ee_list@,
                self.null_body,
                self.allow_206,
                self.preview,
            ),
    {
        let l = &self.ee_list;
        let n = l.len();
        let good_ee = match self.icap_req.method {
            Method::Options => n == 0 || (n == 1 && l.get_unchecked(0) == EncapsulatedEntity::NullBody(0)),
            Method::ReqMod => n == 2 && l.get_unchecked(0) == EncapsulatedEntity::ReqHdr(0) && entity_is(
                l.get_unchecked(1),
                1,
            ),
            Method::RespMod => (n == 2 && l.get_unchecked(0) == EncapsulatedEntity::ResHdr(0) && entity_is(
                l.get_unchecked(1),
                3,
            )) || (n == 3 && l.get_unchecked(0) == EncapsulatedEntity::ReqHdr(0) && entity_is(l.get_unchecked(1), 2)
                && entity_is(l.get_unchecked(2), 3)),
        };
        if !good_ee {
            return Err(DecoderError::BadEncapsulatedHdr(EncapsulatedError::UnexpectedList));
        }
        let is_req = self.icap_req.method != Method::Options;
        if is_req && !self.null_body {
            if !self.allow_206 {
                return Err(DecoderError::NoAllow206);
            }
            let is_zero_preview = match self.preview {
                Some(prv) => prv == 0,
                None => false,
            };
            if !is_zero_preview {
                return Err(DecoderError::NoPreview0);
            }
        }
        Ok(())
    }

    /// Decodes the ICAP head from the receive buffer. `Partial`: more bytes
    /// are needed. `Complete`: the head is decoded, its headers interpreted,
    /// the body offset recorded, and the `Encapsulated` list has the shape
    /// that the method allows.
    pub fn init(&mut self) -> (r: Result<DecodingStatus, DecoderError>)
        ensures
            rbuf_of(final(self)) == rbuf_of(old(self)),
            match icap_head_of(rbuf_of(old(self))) {
                Ok(None) => r == Ok::<DecodingStatus, DecoderError>(DecodingStatus::Partial),
                Err(f) => r matches Err(e) && is_fault(e, f),
                Ok(Some((m, u, hs, n))) => final(self).icap_req.method == m
                    && final(self).icap_req.headers@ == hs && final(self).icap_req.parsed_len == n
                    && (r matches Ok(s) ==> s == DecodingStatus::Complete) && (r
                    == Ok::<DecodingStatus, DecoderError>(DecodingStatus::Complete)
                    <==> init_accepts(old(self))) && init_effect(
                    m,
                    hs,
                    n,
                    rbuf_of(old(self)).len(),
                    old(self).allow_204,
                    old(self).allow_206,
                    r,
                    final(self),
                ),
            },
            r == Ok::<DecodingStatus, DecoderError>(DecodingStatus::Complete)
                ==> final(self).icap_req.parsed_len <= rbuf_of(final(self)).len(),
            r == Ok::<DecodingStatus, DecoderError>(DecodingStatus::Complete) ==> ee_shape_ok(
                final(self).icap_req.method,
                final(self).ee_list@,
            ) && (final(self).ee_list@.len() > 0 ==> final(self).ee_list@.last().spec_is_body())
                && offsets_non_decreasing(final(self).ee_list@),
    {
        let b = buf_bytes(&self.rbuf);
        match decode_icap_request(b, &mut self.icap_req) {
            Err(e) => {
                return Err(e);
            },
            Ok(None) => {
                return Ok(DecodingStatus::Partial);
            },
            Ok(Some(_)) => {},
        }
        proof {
            lemma_headers_list_ordered(self.icap_req.headers@, self.icap_req.headers@.len() as int);
        }
        if let Err(e) = self.parse_icap_headers() {
            return Err(e);
        }
        if let Err(e) = self.alloc_buffer_for_headers() {
            return Err(e);
        }
        match self.check_sanity() {
            Ok(()) => Ok(DecodingStatus::Complete),
            Err(e) => Err(e),
        }
    }
}

/// The decoded request head `q` is what decoding gave: method `m`, target
/// `p`, version `v`, headers `hs`, length `n`.
pub open spec fn http_req_is(
    q: HttpRequest,
    h: (Seq<u8>, Seq<u8>, HttpVersion, Seq<(Seq<u8>, Seq<u8>)>, nat),
) -> bool {
    q.method@ == h.0 && q.uri@ == h.1 && q.version == h.2 && q.headers@ == h.3 && q.parsed_len == h.4
}

/// Decoding an HTTP response head from `b` gave the result `r` and left `q`.
pub open spec fn http_res_outcome(b: Seq<u8>, r: Result<(), DecoderError>, q: HttpResponse) -> bool {
    match http_response_of(b) {
        Ok((v, c, hs, n)) => r is Ok && q.version == v && q.status == c && q.headers@ == hs
            && q.parsed_len == n,
        Err(None) => r == Err::<(), DecoderError>(DecoderError::FailedToParseHttpRes),
        Err(Some(f)) => r matches Err(e) && is_fault(e, f),
    }
}

/// The bytes after the ICAP head.
pub open spec fn encapsulated_bytes_of(c: &ReqCtx) -> Seq<u8> {
    rbuf_of(c).subrange(c.icap_req.parsed_len as int, rbuf_of(c).len() as int)
}

impl ReqCtx {
    fn decode_http_response_at(&mut self, off: usize) -> (r: Result<(), DecoderError>)
        requires
            old(self).icap_req.parsed_len + off <= rbuf_of(old(self)).len(),
        ensures
            http_res_outcome(
                rbuf_of(old(self)).subrange(
                    old(self).icap_req.parsed_len + off,
                    rbuf_of(old(self)).len() as int,
                ),
                r,
                final(self).http_res,
            ),
            rbuf_of(final(self)) == rbuf_of(old(self)),
            final(self).icap_req == old(self).icap_req,
            final(self).http_req == old(self).http_req,
            final(self).ee_list == old(self).ee_list,
            final(self).body_offset == old(self).body_offset,
            final(self).null_body == old(self).null_body,
    {
        let b = buf_bytes(&self.rbuf);
        let len = b.len();
        let start = self.icap_req.parsed_len + off;
        let sub = &b[start..len];
        match decode_http_response(sub, &mut self.http_res) {
            Ok(_) => Ok(()),
            Err(e) => Err(e),
        }
    }

    /// Decodes the encapsulated HTTP heads that the `Encapsulated` list
    /// announces: the request head right after the ICAP head, and the
    /// response head after it (or right after the ICAP head when no request
    /// head comes first). The heads must be wholly received.
    pub fn parse_entities(&mut self) -> (r: Result<(), DecoderError>)
        requires
            ee_shape_ok(old(self).icap_req.method, old(self).ee_list@),
            old(self).icap_req.parsed_len <= rbuf_of(old(self)).len(),
        ensures
            rbuf_of(final(self)) == rbuf_of(old(self)),
            final(self).icap_req == old(self).icap_req,
            final(self).ee_list == old(self).ee_list,
            final(self).body_offset == old(self).body_offset,
            final(self).null_body == old(self).null_body,
            ({
                let l = old(self).ee_list@;
                let body = encapsulated_bytes_of(old(self));
                &&& (l.len() == 0 || l[0] is NullBody) ==> r is Ok && final(self).http_req
                    == old(self).http_req && final(self).http_res == old(self).http_res
                &&& l.len() > 0 && l[0] is ResHdr ==> final(self).http_req == old(self).http_req
                    && http_res_outcome(body, r, final(self).http_res)
                &&& l.len() > 0 && l[0] is ReqHdr ==> match http_request_of(body) {
                    Err(f) => r matches Err(e) && is_fault(e, f),
                    Ok(None) => r == Err::<(), DecoderError>(DecoderError::FailedToParseHttpReq),
                    Ok(Some(h)) => http_req_is(final(self).http_req, h) && (l.len() == 2 ==> r is Ok
                        && final(self).http_res == old(self).http_res) && (l.len() == 3
                        ==> http_res_outcome(
                        body.subrange(h.4 as int, body.len() as int),
                        r,
                        final(self).http_res,
                    )),
                }
            }),
    {
        let n = self.ee_list.len();
        if n == 0 {
            return Ok(());
        }
        let first = self.ee_list.get_unchecked(0);
        match first {
            EncapsulatedEntity::ReqHdr(_) => {
                let b = buf_bytes(&self.rbuf);
                let start = self.icap_req.parsed_len;
                let sub = &b[start..b.len()];
                match decode_http_request(sub, &mut self.http_req) {
                    Ok(Some(_)) => {},
                    Ok(None) => {
                        return Err(DecoderError::FailedToParseHttpReq);
                    },
                    Err(e) => {
                        return Err(e);
                    },
                }
                if n == 3 {
                    let off = self.http_req.parsed_len;
                    let r = self.decode_http_response_at(off);
                    proof {
                        let body = encapsulated_bytes_of(old(self));
                        assert(body.subrange(off as int, body.len() as int) =~= rbuf_of(
                            old(self),
                        ).subrange(start + off, rbuf_of(old(self)).len() as int));
                    }
                    return r;
                }
                Ok(())
            },
            EncapsulatedEntity::ResHdr(_) => {
                let r = self.decode_http_response_at(0);
                r
            },
            _ => Ok(()),
        }
    }

    /// The decoded ICAP request head.
    pub fn icap_req(&self) -> (r: &IcapRequest)
        ensures
            r == &self.icap_req,
    {
        &self.icap_req
    }

    /// A walk over the ICAP request's headers.
    pub fn icap_req_headers(&self) -> (r: HeaderIterator<'_>)
        ensures
            r.list@ == self.icap_req.headers@,
            r.pos == 0,
    {
        HeaderIterator::new(&self.icap_req.headers)
    }

    /// The encapsulated HTTP request head, if one was decoded.
    pub fn http_req(&self) -> (r: Option<&HttpRequest>)
        ensures
            r == if self.http_req.parsed_len != 0 {
                Some(&self.http_req)
            } else {
                None
            },
    {
        if self.http_req.parsed_len != 0 {
            Some(&self.http_req)
        } else {
            None
        }
    }

    /// A walk over the encapsulated HTTP request's headers.
    pub fn http_req_headers(&self) -> (r: HeaderIterator<'_>)
        ensures
            r.list@ == self.http_req.headers@,
            r.pos == 0,
    {
        HeaderIterator::new(&self.http_req.headers)
    }

    /// The encapsulated HTTP response head, if one was decoded.
    pub fn http_res(&self) -> (r: Option<&HttpResponse>)
        ensures
            r == if self.http_res.parsed_len != 0 {
                Some(&self.http_res)
            } else {
                None
            },
    {
        if self.http_res.parsed_len != 0 {
            Some(&self.http_res)
        } else {
            None
        }
    }

    /// A walk over the encapsulated HTTP response's headers.
    pub fn http_res_headers(&self) -> (r: HeaderIterator<'_>)
        ensures
            r.list@ == self.http_res.headers@,
            r.pos == 0,
    {
        HeaderIterator::new(&self.http_res.headers)
    }

    pub fn allow_204(&self) -> (r: bool)
        ensures
            r == self.allow_204,
    {
        self.allow_204
    }

    pub fn allow_206(&self) -> (r: bool)
        ensures
            r == self.allow_206,
    {
        self.allow_206
    }

    /// Sets the status of the ICAP response (a three-digit code).
    pub fn set_icap_status(&mut self, status: u16)
        requires
            100 <= status <= 999,
        ensures
            *final(self) == (ReqCtx { out_icap_status: Some(status), ..*old(self) }),
    {
        self.out_icap_status = Some(status);
    }

    /// Sets the status of the encapsulated HTTP response (a three-digit code).
    pub fn set_http_status(&mut self, status: u16)
        requires
            100 <= status <= 999,
        ensures
            *final(self) == (ReqCtx { out_http_status: Some(status), ..*old(self) }),
    {
        self.out_http_status = Some(status);
    }

    pub fn set_decision(&mut self, decision: AdaptationDecision)
        ensures
            *final(self) == (ReqCtx { decision: Some(decision), ..*old(self) }),
    {
        self.decision = Some(decision);
    }

    /// Adds the header `name: val` to the ICAP response.
    pub fn append_icap_res_header(&mut self, name: &str, val: &str)
        ensures
            final(self).out_icap_headers@ == old(self).out_icap_headers@.push(
                (name.spec_bytes(), val.spec_bytes()),
            ),
            *final(self) == (ReqCtx { out_icap_headers: final(self).out_icap_headers, ..*old(self) }),
    {
        self.append_icap_res_header_val(name, val.as_bytes());
    }

    /// Adds the header `name: val` to the ICAP response.
    pub fn append_icap_res_header_val(&mut self, name: &str, val: &[u8])
        ensures
            final(self).out_icap_headers@ == old(self).out_icap_headers@.push(
                (name.spec_bytes(), val@),
            ),
            *final(self) == (ReqCtx { out_icap_headers: final(self).out_icap_headers, ..*old(self) }),
    {
        let nb = name.as_bytes();
        let n = copy_range(nb, 0, nb.len());
        let v = copy_range(val, 0, val.len());
        proof {
            assert(nb@.subrange(0, nb@.len() as int) =~= name.spec_bytes());
            assert(val@.subrange(0, val@.len() as int) =~= val@);
        }
        self.out_icap_headers.push(n, v);
    }

    /// Adds the header `name: val` to the encapsulated HTTP message.
    pub fn append_http_header(&mut self, name: &str, val: &str)
        ensures
            final(self).out_http_headers@ == old(self).out_http_headers@.push(
                (name.spec_bytes(), val.spec_bytes()),
            ),
            *final(self) == (ReqCtx { out_http_headers: final(self).out_http_headers, ..*old(self) }),
    {
        self.append_http_header_val(name, val.as_bytes());
    }

    /// Adds the header `name: val` to the encapsulated HTTP message.
    pub fn append_http_header_val(&mut self, name: &str, val: &[u8])
        ensures
            final(self).out_http_headers@ == old(self).out_http_headers@.push(
                (name.spec_bytes(), val@),
            ),
            *final(self) == (ReqCtx { out_http_headers: final(self).out_http_headers, ..*old(self) }),
    {
        let nb = name.as_bytes();
        let n = copy_range(nb, 0, nb.len());
        let v = copy_range(val, 0, val.len());
        proof {
            assert(nb@.subrange(0, nb@.len() as int) =~= name.spec_bytes());
            assert(val@.subrange(0, val@.len() as int) =~= val@);
        }
        self.out_http_headers.push(n, v);
    }

    /// Forgets the message, keeping the buffers' capacity for the next one.
    pub fn clear(&mut self)
        ensures
            rbuf_of(final(self)) == Seq::<u8>::empty(),
            final(self).http_buf@.len() == 0,
            final(self).msgs_cnt == old(self).msgs_cnt,
            final(self).icap_req.parsed_len == 0,
            final(self).icap_req.headers@.len() == 0,
            final(self).http_req.parsed_len == 0,
            final(self).http_req.headers@.len() == 0,
            final(self).http_res.parsed_len == 0,
            final(self).http_res.headers@.len() == 0,
            final(self).ee_list@.len() == 0,
            final(self).preview is None,
            !final(self).null_body,
            !final(self).allow_204,
            !final(self).allow_206,
            final(self).decision is None,
            final(self).out_icap_status is None,
            final(self).out_icap_headers@.len() == 0,
            final(self).out_http_status is None,
            final(self).out_http_headers@.len() == 0,
            final(self).out_http_ver is None,
            final(self).body_offset == 0,
            final(self).header_missing_bytes == 0,
    {
        buf_clear(&mut self.rbuf);
        self.http_buf.clear();
        self.icap_req.clear();
        self.http_req.clear();
        self.http_res.clear();
        self.ee_list.clear();
        self.preview = None;
        self.null_body = false;
        self.allow_204 = false;
        self.allow_206 = false;
        self.decision = None;
        self.out_icap_headers.clear();
        self.out_icap_status = None;
        self.out_http_status = None;
        self.out_http_headers.clear();
        self.out_http_ver = None;
        self.body_offset = 0;
        self.header_missing_bytes = 0;
    }
}

} // verus!
