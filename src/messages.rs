//! The decoded heads of ICAP requests and of the HTTP messages they carry.
use crate::ascii::{CR, LF, SP};
use crate::bindings::{
    header_block_of, http_method_ok, http_request_head_of,
    http_response_head_of, http_uri_accepts, http_uri_ok, parse_header_block,
    parse_http_request, parse_http_response, HeadersParse, RequestParse, ResponseParse,
};
use crate::chunk::is_token;
use crate::errors::DecoderError;
use crate::header::HeaderIndicesList;
use crate::method::{Method, Version};
use crate::text::{http_10, http_10_bytes, http_11, http_11_bytes, icap_10, options, reqmod, respmod};
use vstd::prelude::*;

verus! {

/// The versions of HTTP that an encapsulated message may have.
#[derive(Debug, Copy, Clone, PartialEq, Eq, Structural, Hash, Default)]
pub enum HttpVersion {
    Http10,
    #[default]
    Http11,
}

impl HttpVersion {
    pub open spec fn name(self) -> Seq<u8> {
        match self {
            HttpVersion::Http10 => http_10(),
            HttpVersion::Http11 => http_11(),
        }
    }

    /// `HTTP/1.0` or `HTTP/1.1`.
    pub fn as_bytes(self) -> (r: Vec<u8>)
        ensures
            r@ == self.name(),
    {
        match self {
            HttpVersion::Http10 => http_10_bytes(),
            HttpVersion::Http11 => http_11_bytes(),
        }
    }
}

/// The decoded head of an ICAP request.
#[derive(Debug, Default)]
pub struct IcapRequest {
    pub method: Method,
    pub uri: Vec<u8>,
    pub version: Version,
    pub headers: HeaderIndicesList,
    /// The length of the head; 0 while nothing is decoded.
    pub parsed_len: usize,
}

/// The decoded head of an encapsulated HTTP request.
#[derive(Debug, Default)]
pub struct HttpRequest {
    pub method: Vec<u8>,
    pub uri: Vec<u8>,
    pub version: HttpVersion,
    pub headers: HeaderIndicesList,
    /// The length of the head; 0 while nothing is decoded.
    pub parsed_len: usize,
}

/// The decoded head of an encapsulated HTTP response.
#[derive(Debug, Default)]
pub struct HttpResponse {
    pub version: HttpVersion,
    pub status: u16,
    pub headers: HeaderIndicesList,
    /// The length of the head; 0 while nothing is decoded.
    pub parsed_len: usize,
}

impl IcapRequest {
    pub fn clear(&mut self)
        ensures
            final(self).method == Method::Options,
            final(self).headers@.len() == 0,
            final(self).parsed_len == 0,
    {
        self.method = Method::Options;
        self.headers.clear();
        self.parsed_len = 0;
    }
}

impl HttpRequest {
    pub fn is_parsed(&self) -> (r: bool)
        ensures
            r == (self.parsed_len != 0),
    {
        self.parsed_len != 0
    }

    pub fn clear(&mut self)
        ensures
            final(self).headers@.len() == 0,
            final(self).parsed_len == 0,
    {
        self.method.clear();
        self.headers.clear();
        self.parsed_len = 0;
    }
}

impl HttpResponse {
    pub fn is_parsed(&self) -> (r: bool)
        ensures
            r == (self.parsed_len != 0),
    {
        self.parsed_len != 0
    }

    pub fn clear(&mut self)
        ensures
            final(self).headers@.len() == 0,
            final(self).parsed_len == 0,
    {
        self.version = HttpVersion::Http11;
        self.status = 0;
        self.headers.clear();
        self.parsed_len = 0;
    }
}

/// The kinds of malformed message heads.
#[derive(Debug, Copy, Clone, PartialEq, Eq, Structural)]
pub enum HeadFault {
    Format,
    Method,
    Uri,
    Version,
}

/// The decoder error `e` is of the kind `f`.
pub open spec fn is_fault(e: DecoderError, f: HeadFault) -> bool {
    match f {
        HeadFault::Format => e is BadFormat,
        HeadFault::Method => e is BadMethod,
        HeadFault::Uri => e is BadUri,
        HeadFault::Version => e is BadVersion,
    }
}

/// A visible ASCII character: the bytes of a request target.
pub open spec fn is_uri_char(c: u8) -> bool {
    0x21u8 <= c <= 0x7Eu8
}

pub open spec fn scan_tokens(b: Seq<u8>, i: int) -> int
    decreases b.len() - i,
{
    if 0 <= i < b.len() && is_token(b[i]) {
        scan_tokens(b, i + 1)
    } else {
        i
    }
}

pub open spec fn scan_uri(b: Seq<u8>, i: int) -> int
    decreases b.len() - i,
{
    if 0 <= i < b.len() && is_uri_char(b[i]) {
        scan_uri(b, i + 1)
    } else {
        i
    }
}

pub open spec fn scan_to_eol(b: Seq<u8>, i: int) -> int
    decreases b.len() - i,
{
    if 0 <= i < b.len() && b[i] != CR && b[i] != LF {
        scan_to_eol(b, i + 1)
    } else {
        i
    }
}

/// The request line `METHOD SP URI SP ICAP/1.0 CRLF` at the start of `b`:
/// where the method ends, where the target ends and where the line ends;
/// `Ok(None)` while the line is incomplete. A bare LF also ends the line.
pub open spec fn icap_line_of(b: Seq<u8>) -> Result<Option<(int, int, int)>, HeadFault> {
    let m = scan_tokens(b, 0);
    let u = scan_uri(b, m + 1);
    let v = scan_to_eol(b, u + 1);
    if m >= b.len() {
        Ok(None)
    } else if m == 0 || b[m] != SP {
        Err(HeadFault::Method)
    } else if u >= b.len() {
        Ok(None)
    } else if u == m + 1 || b[u] != SP {
        Err(HeadFault::Uri)
    } else if v >= b.len() {
        Ok(None)
    } else if b.subrange(u + 1, v) != icap_10() {
        Err(HeadFault::Version)
    } else if b[v] == LF {
        Ok(Some((m, u, v + 1)))
    } else if v + 1 >= b.len() {
        Ok(None)
    } else if b[v + 1] != LF {
        Err(HeadFault::Format)
    } else {
        Ok(Some((m, u, v + 2)))
    }
}

/// The ICAP method named `b`.
pub open spec fn method_named(b: Seq<u8>) -> Option<Method> {
    if b == options() {
        Some(Method::Options)
    } else if b == reqmod() {
        Some(Method::ReqMod)
    } else if b == respmod() {
        Some(Method::RespMod)
    } else {
        None
    }
}

/// What decoding the head of an ICAP request from `b` gives: the method,
/// the target, the headers and the head's length.
pub open spec fn icap_head_of(b: Seq<u8>) -> Result<
    Option<(Method, Seq<u8>, Seq<(Seq<u8>, Seq<u8>)>, nat)>,
    HeadFault,
> {
    match icap_line_of(b) {
        Err(f) => Err(f),
        Ok(None) => Ok(None),
        Ok(Some((m, u, l))) => match header_block_of(b.subrange(l, b.len() as int)) {
            Err(_) => Err(HeadFault::Format),
            Ok(None) => Ok(None),
            Ok(Some((n, hs))) => match method_named(b.subrange(0, m)) {
                None => Err(HeadFault::Method),
                Some(meth) => if !http_uri_accepts(b.subrange(m + 1, u)) {
                    Err(HeadFault::Uri)
                } else {
                    Ok(Some((meth, b.subrange(m + 1, u), hs, (l + n) as nat)))
                },
            },
        },
    }
}

fn scan_while(b: &[u8], i: usize, kind: u8) -> (r: usize)
    requires
        i <= b@.len(),
    ensures
        kind == 0 ==> r == scan_tokens(b@, i as int),
        kind == 1 ==> r == scan_uri(b@, i as int),
        kind == 2 ==> r == scan_to_eol(b@, i as int),
        i <= r <= b@.len(),
{
    let mut k = i;
    while k < b.len()
        invariant
            i <= k <= b@.len(),
            kind == 0 ==> scan_tokens(b@, k as int) == scan_tokens(b@, i as int),
            kind == 1 ==> scan_uri(b@, k as int) == scan_uri(b@, i as int),
            kind == 2 ==> scan_to_eol(b@, k as int) == scan_to_eol(b@, i as int),
        decreases b@.len() - k,
    {
        let c = b[k];
        let go = if kind == 0 {
            crate::chunk::is_token_exec(c)
        } else if kind == 1 {
            0x21u8 <= c && c <= 0x7Eu8
        } else {
            c != CR && c != LF
        };
        if !go {
            return k;
        }
        k = k + 1;
    }
    k
}

/// Reads the ICAP request line; the positions as `icap_line_of` gives them.
fn decode_icap_line(b: &[u8]) -> (r: Result<Option<(usize, usize, usize)>, HeadFault>)
    ensures
        match icap_line_of(b@) {
            Ok(Some((m, u, l))) => r matches Ok(Some((m2, u2, l2))) && m == m2 && u == u2 && l
                == l2 && 0 < m < u < l <= b@.len(),
            Ok(None) => r == Ok::<Option<(usize, usize, usize)>, HeadFault>(None),
            Err(f) => r == Err::<Option<(usize, usize, usize)>, HeadFault>(f),
        },
{
    let m = scan_while(b, 0, 0);
    if m >= b.len() {
        return Ok(None);
    }
    if m == 0 || b[m] != SP {
        return Err(HeadFault::Method);
    }
    let u = scan_while(b, m + 1, 1);
    if u >= b.len() {
        return Ok(None);
    }
    if u == m + 1 || b[u] != SP {
        return Err(HeadFault::Uri);
    }
    let v = scan_while(b, u + 1, 2);
    if v >= b.len() {
        return Ok(None);
    }
    let ver = crate::text::icap_10_bytes();
    if !crate::decoder::matches_at(b, u + 1, ver.as_slice()) || v - (u + 1) != ver.len() {
        proof {
            if b@.subrange(u + 1, v as int) == icap_10() {
                assert(b@.subrange(u + 1, u + 1 + ver@.len()) =~= b@.subrange(u + 1, v as int));
            }
        }
        return Err(HeadFault::Version);
    }
    assert(b@.subrange(u + 1, u + 1 + ver@.len()) =~= b@.subrange(u + 1, v as int));
    if b[v] == LF {
        return Ok(Some((m, u, v + 1)));
    }
    if v + 1 >= b.len() {
        return Ok(None);
    }
    if b[v + 1] != LF {
        return Err(HeadFault::Format);
    }
    Ok(Some((m, u, v + 2)))
}

fn method_from(b: &[u8], end: usize) -> (r: Option<Method>)
    requires
        end <= b@.len(),
    ensures
        r == method_named(b@.subrange(0, end as int)),
{
    let mut name: Vec<u8> = Vec::new();
    let mut k: usize = 0;
    while k < end
        invariant
            k <= end <= b@.len(),
            name@ == b@.subrange(0, k as int),
        decreases end - k,
    {
        name.push(b[k]);
        k = k + 1;
        assert(name@ =~= b@.subrange(0, k as int));
    }
    match Method::from_bytes(name.as_slice()) {
        Ok(m) => Some(m),
        Err(_) => None,
    }
}

/// The bytes `b[start..end]` as a vector.
pub fn copy_range(b: &[u8], start: usize, end: usize) -> (r: Vec<u8>)
    requires
        start <= end <= b@.len(),
    ensures
        r@ == b@.subrange(start as int, end as int),
{
    let mut v: Vec<u8> = Vec::new();
    let mut k = start;
    while k < end
        invariant
            start <= k <= end <= b@.len(),
            v@ == b@.subrange(start as int, k as int),
        decreases end - k,
    {
        v.push(b[k]);
        k = k + 1;
        assert(v@ =~= b@.subrange(start as int, k as int));
    }
    v
}

fn fault_error(f: HeadFault) -> (r: DecoderError)
    ensures
        is_fault(r, f),
{
    match f {
        HeadFault::Format => DecoderError::BadFormat("malformed request head".to_owned()),
        HeadFault::Method => DecoderError::BadMethod("invalid method".to_owned()),
        HeadFault::Uri => DecoderError::BadUri("invalid URI".to_owned()),
        HeadFault::Version => DecoderError::BadVersion("bad icap version".to_owned()),
    }
}

/// Decodes the head of an ICAP request at the start of `bytes` into `req`.
/// `Ok(None)`: the head is not complete yet, and `req` is left as it was.
pub fn decode_icap_request(bytes: &[u8], req: &mut IcapRequest) -> (r: Result<
    Option<usize>,
    DecoderError,
>)
    ensures
        match icap_head_of(bytes@) {
            Ok(Some((m, u, hs, n))) => r == Ok::<Option<usize>, DecoderError>(Some(n as usize))
                && final(req).method == m && final(req).uri@ == u && final(req).headers@ == hs
                && final(req).version == Version::Icap10 && final(req).parsed_len == n && 0 < n
                <= bytes@.len(),
            Ok(None) => r == Ok::<Option<usize>, DecoderError>(None) && *final(req) == *old(req),
            Err(f) => r matches Err(e) && is_fault(e, f) && *final(req) == *old(req),
        },
{
    let (m, u, l) = match decode_icap_line(bytes) {
        Err(f) => {
            return Err(fault_error(f));
        },
        Ok(None) => {
            return Ok(None);
        },
        Ok(Some(t)) => t,
    };
    let rest = copy_range(bytes, l, bytes.len());
    let (n, hs) = match parse_header_block(rest.as_slice()) {
        HeadersParse::Failed(e) => {
            return Err(DecoderError::BadFormat(e));
        },
        HeadersParse::Partial => {
            return Ok(None);
        },
        HeadersParse::Complete(n, hs) => (n, hs),
    };
    let meth = match method_from(bytes, m) {
        Some(x) => x,
        None => {
            return Err(DecoderError::BadMethod("invalid ICAP method".to_owned()));
        },
    };
    let uri = copy_range(bytes, m + 1, u);
    if !http_uri_ok(uri.as_slice()) {
        return Err(DecoderError::BadUri("invalid ICAP URI".to_owned()));
    }
    req.method = meth;
    req.uri = uri;
    req.version = Version::Icap10;
    req.headers = hs;
    req.parsed_len = l + n;
    Ok(Some(l + n))
}

/// What decoding an encapsulated HTTP request head from `b` gives: the
/// method, the target, the version, the headers and the head's length.
pub open spec fn http_request_of(b: Seq<u8>) -> Result<
    Option<(Seq<u8>, Seq<u8>, HttpVersion, Seq<(Seq<u8>, Seq<u8>)>, nat)>,
    HeadFault,
> {
    match http_request_head_of(b) {
        Err((token, method_seen, _)) => if token && !method_seen {
            Err(HeadFault::Method)
        } else if token {
            Err(HeadFault::Uri)
        } else {
            Err(HeadFault::Format)
        },
        Ok(None) => Ok(None),
        Ok(Some((n, m, p, v, hs))) => if !http_uri_accepts(p) {
            Err(HeadFault::Uri)
        } else if v > 1 {
            Err(HeadFault::Version)
        } else if !(m.len() > 0 && forall|i: int| 0 <= i < m.len() ==> is_token(#[trigger] m[i])) {
            Err(HeadFault::Method)
        } else {
            Ok(Some((m, p, if v == 0 { HttpVersion::Http10 } else { HttpVersion::Http11 }, hs, n)))
        },
    }
}

/// Decodes the head of an encapsulated HTTP request at the start of `bytes`
/// into `req`. `Ok(None)`: the head is not complete, and `req` is left as it was.
pub fn decode_http_request(bytes: &[u8], req: &mut HttpRequest) -> (r: Result<
    Option<usize>,
    DecoderError,
>)
    ensures
        match http_request_of(bytes@) {
            Ok(Some((m, p, v, hs, n))) => r == Ok::<Option<usize>, DecoderError>(Some(n as usize))
                && final(req).method@ == m && final(req).uri@ == p && final(req).version == v
                && final(req).headers@ == hs && final(req).parsed_len == n && n <= bytes@.len(),
            Ok(None) => r == Ok::<Option<usize>, DecoderError>(None) && *final(req) == *old(req),
            Err(f) => r matches Err(e) && is_fault(e, f) && *final(req) == *old(req),
        },
{
    match parse_http_request(bytes) {
        RequestParse::Failed(token, method_seen, text) => {
            if token && !method_seen {
                Err(DecoderError::BadMethod("invalid method token".to_owned()))
            } else if token {
                Err(DecoderError::BadUri("invalid URI token".to_owned()))
            } else {
                Err(DecoderError::BadFormat(text))
            }
        },
        RequestParse::Partial => Ok(None),
        RequestParse::Complete(n, m, p, v, hs) => {
            if !http_uri_ok(p.as_slice()) {
                return Err(DecoderError::BadUri("invalid HTTP URI".to_owned()));
            }
            let version = if v == 0 {
                HttpVersion::Http10
            } else if v == 1 {
                HttpVersion::Http11
            } else {
                return Err(DecoderError::BadVersion("bad http version".to_owned()));
            };
            if !http_method_ok(m.as_slice()) {
                return Err(DecoderError::BadMethod("failed to parse http method".to_owned()));
            }
            req.method = m;
            req.uri = p;
            req.version = version;
            req.headers = hs;
            req.parsed_len = n;
            Ok(Some(n))
        },
    }
}

/// What decoding an encapsulated HTTP response head from `b` gives: the
/// version, the status code, the headers and the head's length. An
/// incomplete head is an error here: the message must be wholly present.
pub open spec fn http_response_of(b: Seq<u8>) -> Result<
    (HttpVersion, u16, Seq<(Seq<u8>, Seq<u8>)>, nat),
    Option<HeadFault>,
> {
    match http_response_head_of(b) {
        Err(_) => Err(Some(HeadFault::Format)),
        Ok(None) => Err(None),
        Ok(Some((n, v, c, hs))) => if v > 1 {
            Err(Some(HeadFault::Version))
        } else if c < 100 || c > 999 {
            Err(Some(HeadFault::Format))
        } else {
            Ok((if v == 0 { HttpVersion::Http10 } else { HttpVersion::Http11 }, c, hs, n))
        },
    }
}

/// Decodes the head of an encapsulated HTTP response at the start of
/// `bytes` into `resp`. An incomplete head fails with `FailedToParseHttpRes`.
pub fn decode_http_response(bytes: &[u8], resp: &mut HttpResponse) -> (r: Result<
    usize,
    DecoderError,
>)
    ensures
        match http_response_of(bytes@) {
            Ok((v, c, hs, n)) => r == Ok::<usize, DecoderError>(n as usize) && final(resp).version
                == v && final(resp).status == c && final(resp).headers@ == hs
                && final(resp).parsed_len == n && n <= bytes@.len(),
            Err(None) => r == Err::<usize, DecoderError>(DecoderError::FailedToParseHttpRes)
                && *final(resp) == *old(resp),
            Err(Some(f)) => r matches Err(e) && is_fault(e, f) && *final(resp) == *old(resp),
        },
{
    match parse_http_response(bytes) {
        ResponseParse::Failed(text) => Err(DecoderError::BadFormat(text)),
        ResponseParse::Partial => Err(DecoderError::FailedToParseHttpRes),
        ResponseParse::Complete(n, v, c, hs) => {
            let version = if v == 0 {
                HttpVersion::Http10
            } else if v == 1 {
                HttpVersion::Http11
            } else {
                return Err(DecoderError::BadVersion("invalid http response version".to_owned()));
            };
            if c < 100 || c > 999 {
                return Err(DecoderError::BadFormat("bad http response status code".to_owned()));
            }
            resp.version = version;
            resp.status = c;
            resp.headers = hs;
            resp.parsed_len = n;
            Ok(n)
        },
    }
}

} // verus!
