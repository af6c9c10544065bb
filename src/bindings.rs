//! The calls into `bytes`, `httparse` and `http`, each with the contract
//! that the library relies on.
use crate::chunk::is_token;
use crate::decoder::MAX_HEADERS;
use crate::header::{header_of, HeaderIndicesList};
use httparse::Status;
use vstd::prelude::*;

verus! {

#[verifier::external_type_specification]
#[verifier::external_body]
pub struct ExBytesMut(bytes::BytesMut);

/// The bytes that a `BytesMut` holds.
pub uninterp spec fn bytes_mut_contents(b: bytes::BytesMut) -> Seq<u8>;

/// Relies on `bytes::BytesMut::with_capacity`: a new, empty buffer.
#[verifier::external_body]
pub fn buf_with_capacity(cap: usize) -> (r: bytes::BytesMut)
    ensures
        bytes_mut_contents(r) == Seq::<u8>::empty(),
{
    bytes::BytesMut::with_capacity(cap)
}

/// Relies on `bytes::BytesMut::len`: the number of bytes held.
#[verifier::external_body]
pub fn buf_len(b: &bytes::BytesMut) -> (r: usize)
    ensures
        r == bytes_mut_contents(*b).len(),
{
    b.len()
}

/// Relies on `BytesMut`'s `Deref` to `[u8]`: the bytes held, in order.
#[verifier::external_body]
pub fn buf_bytes(b: &bytes::BytesMut) -> (r: &[u8])
    ensures
        r@ == bytes_mut_contents(*b),
{
    b
}

/// Relies on `bytes::BytesMut::extend_from_slice`: the bytes are appended.
#[verifier::external_body]
pub fn buf_extend(b: &mut bytes::BytesMut, src: &[u8])
    requires
        bytes_mut_contents(*old(b)).len() + src@.len() <= usize::MAX,
    ensures
        bytes_mut_contents(*final(b)) == bytes_mut_contents(*old(b)) + src@,
{
    b.extend_from_slice(src)
}

/// Relies on `bytes::BytesMut::clear`: no bytes are left; the capacity stays.
#[verifier::external_body]
pub fn buf_clear(b: &mut bytes::BytesMut)
    ensures
        bytes_mut_contents(*final(b)) == Seq::<u8>::empty(),
{
    b.clear()
}

/// Relies on `bytes::BytesMut::reserve`: room for more bytes; the contents
/// stay as they are.
#[verifier::external_body]
pub fn buf_reserve(b: &mut bytes::BytesMut, additional: usize)
    requires
        bytes_mut_contents(*old(b)).len() + additional <= usize::MAX,
    ensures
        bytes_mut_contents(*final(b)) == bytes_mut_contents(*old(b)),
{
    b.reserve(additional)
}

/// What the header-block parser found: the length of the block and its
/// headers, or that the block is not complete yet, or why it is malformed.
pub enum HeadersParse {
    Complete(usize, HeaderIndicesList),
    Partial,
    Failed(String),
}

pub open spec fn headers_parse_view(r: HeadersParse) -> Result<
    Option<(nat, Seq<(Seq<u8>, Seq<u8>)>)>,
    Seq<char>,
> {
    match r {
        HeadersParse::Complete(n, l) => Ok(Some((n as nat, l@))),
        HeadersParse::Partial => Ok(None),
        HeadersParse::Failed(t) => Err(t@),
    }
}

/// What `httparse::parse_headers` gives for the bytes `src`, with room for
/// the most headers a message may carry.
pub uninterp spec fn header_block_of(src: Seq<u8>) -> Result<
    Option<(nat, Seq<(Seq<u8>, Seq<u8>)>)>,
    Seq<char>,
>;

/// Relies on `httparse::parse_headers`: a complete block ends within `src`
/// and holds at most as many headers as there is room for.
#[verifier::external_body]
pub fn parse_header_block(src: &[u8]) -> (r: HeadersParse)
    ensures
        headers_parse_view(r) == header_block_of(src@),
        r matches HeadersParse::Complete(n, l) ==> n <= src@.len() && l@.len() <= MAX_HEADERS,
{
    let mut hs = [httparse::EMPTY_HEADER; MAX_HEADERS];
    match httparse::parse_headers(src, &mut hs) {
        Ok(Status::Complete((n, list))) => HeadersParse::Complete(n, HeaderIndicesList {
            vec: list.iter().map(|h| header_of(h.name.as_bytes(), h.value)).collect(),
        }),
        Ok(Status::Partial) => HeadersParse::Partial,
        Err(e) => HeadersParse::Failed(e.to_string()),
    }
}

/// What the HTTP request parser found.
pub enum RequestParse {
    /// The head's length, the method, the target, the minor version, the headers.
    Complete(usize, Vec<u8>, Vec<u8>, u8, HeaderIndicesList),
    Partial,
    /// Whether a token was malformed, whether the method had been read, the
    /// error in words.
    Failed(bool, bool, String),
}

pub open spec fn request_parse_view(r: RequestParse) -> Result<
    Option<(nat, Seq<u8>, Seq<u8>, u8, Seq<(Seq<u8>, Seq<u8>)>)>,
    (bool, bool, Seq<char>),
> {
    match r {
        RequestParse::Complete(n, m, p, v, l) => Ok(Some((n as nat, m@, p@, v, l@))),
        RequestParse::Partial => Ok(None),
        RequestParse::Failed(t, m, e) => Err((t, m, e@)),
    }
}

/// What `httparse::Request::parse` gives for the bytes `src`.
pub uninterp spec fn http_request_head_of(src: Seq<u8>) -> Result<
    Option<(nat, Seq<u8>, Seq<u8>, u8, Seq<(Seq<u8>, Seq<u8>)>)>,
    (bool, bool, Seq<char>),
>;

/// Relies on `httparse::Request::parse`: a complete head ends within `src`,
/// holds at most as many headers as there is room for, and has the minor
/// version 0 or 1 (`HTTP/1.0`, `HTTP/1.1`).
#[verifier::external_body]
pub fn parse_http_request(src: &[u8]) -> (r: RequestParse)
    ensures
        request_parse_view(r) == http_request_head_of(src@),
        r matches RequestParse::Complete(n, _, _, v, l) ==> n <= src@.len() && l@.len()
            <= MAX_HEADERS && v <= 1,
{
    let mut hs = [httparse::EMPTY_HEADER; MAX_HEADERS];
    let mut req = httparse::Request::new(&mut hs);
    match req.parse(src) {
        Ok(Status::Complete(n)) => RequestParse::Complete(n,
            req.method.unwrap_or_default().as_bytes().to_vec(), req.path.unwrap_or_default().as_bytes().to_vec(),
            req.version.unwrap_or_default(), HeaderIndicesList {
            vec: req.headers.iter().map(|h| header_of(h.name.as_bytes(), h.value)).collect() }),
        Ok(Status::Partial) => RequestParse::Partial,
        Err(e) => RequestParse::Failed(matches!(e, httparse::Error::Token), req.method.is_some(), e.to_string()),
    }
}

/// What the HTTP response parser found.
pub enum ResponseParse {
    /// The head's length, the minor version, the status code, the headers.
    Complete(usize, u8, u16, HeaderIndicesList),
    Partial,
    Failed(String),
}

pub open spec fn response_parse_view(r: ResponseParse) -> Result<
    Option<(nat, u8, u16, Seq<(Seq<u8>, Seq<u8>)>)>,
    Seq<char>,
> {
    match r {
        ResponseParse::Complete(n, v, c, l) => Ok(Some((n as nat, v, c, l@))),
        ResponseParse::Partial => Ok(None),
        ResponseParse::Failed(e) => Err(e@),
    }
}

/// What `httparse::Response::parse` gives for the bytes `src`.
pub uninterp spec fn http_response_head_of(src: Seq<u8>) -> Result<
    Option<(nat, u8, u16, Seq<(Seq<u8>, Seq<u8>)>)>,
    Seq<char>,
>;

/// Relies on `httparse::Response::parse`: a complete head ends within `src`,
/// holds at most as many headers as there is room for, has the minor version
/// 0 or 1 and a status code of three digits.
#[verifier::external_body]
pub fn parse_http_response(src: &[u8]) -> (r: ResponseParse)
    ensures
        response_parse_view(r) == http_response_head_of(src@),
        r matches ResponseParse::Complete(n, v, c, l) ==> n <= src@.len() && l@.len()
            <= MAX_HEADERS && v <= 1 && c <= 999,
{
    let mut hs = [httparse::EMPTY_HEADER; MAX_HEADERS];
    let mut res = httparse::Response::new(&mut hs);
    match res.parse(src) {
        Ok(Status::Complete(n)) => ResponseParse::Complete(n, res.version.unwrap_or_default(),
            res.code.unwrap_or_default(), HeaderIndicesList {
            vec: res.headers.iter().map(|h| header_of(h.name.as_bytes(), h.value)).collect() }),
        Ok(Status::Partial) => ResponseParse::Partial,
        Err(e) => ResponseParse::Failed(e.to_string()),
    }
}

/// Relies on `http::Method::from_bytes`: a method is a non-empty string of
/// token characters (its table of method characters is RFC 7230's `tchar`).
#[verifier::external_body]
pub fn http_method_ok(b: &[u8]) -> (r: bool)
    ensures
        r == (b@.len() > 0 && forall|i: int| 0 <= i < b@.len() ==> is_token(#[trigger] b@[i])),
{
    http::Method::from_bytes(b).is_ok()
}

/// Whether `http::Uri`'s conversion from bytes accepts them.
pub uninterp spec fn http_uri_accepts(b: Seq<u8>) -> bool;

/// Relies on `http::Uri`'s `TryFrom<&[u8]>`: whether the bytes make a URI.
#[verifier::external_body]
pub fn http_uri_ok(b: &[u8]) -> (r: bool)
    ensures
        r == http_uri_accepts(b@),
{
    http::Uri::try_from(b).is_ok()
}

/// The text that `http::StatusCode` displays for a code: the code and its
/// reason phrase.
pub uninterp spec fn status_text(code: u16) -> Seq<u8>;

/// Relies on `http::StatusCode::from_u16` and the status code's `Display`,
/// for a code of three digits.
#[verifier::external_body]
pub fn status_line_text(code: u16) -> (r: Vec<u8>)
    requires
        100 <= code <= 999,
    ensures
        r@ == status_text(code),
{
    http::StatusCode::from_u16(code).unwrap().to_string().into_bytes()
}

} // verus!
