//! The ICAP responses that the server writes back, built from a request
//! context after the adaptation callback ran.
use crate::bindings::{status_line_text, status_text};
use crate::chunk::{chunk_header_of, decode_chunk_header};
use crate::ascii::{CR, LF};
use crate::header::{append_bytes, encode_headers, eq_ignore_case, HeaderIndicesList};
use crate::messages::HttpVersion;
use crate::method::Method;
use crate::numbers::{radix_text, write_radix};
use crate::request_context::{AdaptationDecision, ReqCtx};
use crate::text::{
    allow_name, allow_name_bytes, allow_value, allow_value_bytes, close_line, close_line_bytes,
    connection, connection_bytes, crlf, crlf_bytes, encapsulated, encapsulated_bytes,
    encapsulated_prefix, encapsulated_prefix_bytes, eq_zero_sep, eq_zero_sep_bytes, equals_sign,
    equals_sign_bytes, icap_10, icap_10_bytes, istag, istag_bytes, istag_line, istag_line_bytes,
    istag_value, istag_value_bytes, keep_alive, keep_alive_bytes, methods, methods_bytes,
    methods_value, methods_value_bytes, null_body, null_body_bytes, null_body_line,
    null_body_line_bytes, null_body_zero, null_body_zero_bytes, preview, preview_bytes, req_body,
    req_body_bytes, req_hdr, req_hdr_bytes, res_body, res_body_bytes, res_hdr, res_hdr_bytes,
    server, server_bytes, server_value, server_value_bytes, space, space_bytes, star, star_bytes,
    transfer_preview, transfer_preview_bytes, use_original_body, use_original_body_bytes, zero,
    zero_bytes,
};
use vstd::prelude::*;

verus! {

/// `l` with the header `k: v` appended unless a header named `k` (but for
/// case) is there already.
pub open spec fn with_default(l: Seq<(Seq<u8>, Seq<u8>)>, k: Seq<u8>, v: Seq<u8>) -> Seq<(Seq<u8>, Seq<u8>)> {
    if exists|i: int| 0 <= i < l.len() && eq_ignore_case(#[trigger] l[i].0, k) {
        l
    } else {
        l.push((k, v))
    }
}

/// The ICAP headers of a reply to any adaptation request, defaults added.
pub open spec fn with_response_defaults(l: Seq<(Seq<u8>, Seq<u8>)>) -> Seq<(Seq<u8>, Seq<u8>)> {
    with_default(
        with_default(with_default(l, istag(), istag_value()), server(), server_value()),
        connection(),
        keep_alive(),
    )
}

/// The ICAP headers of a 204 reply, defaults added.
pub open spec fn with_204_defaults(l: Seq<(Seq<u8>, Seq<u8>)>) -> Seq<(Seq<u8>, Seq<u8>)> {
    with_default(with_response_defaults(l), encapsulated(), null_body_zero())
}

/// The ICAP headers of an OPTIONS reply, defaults added.
pub open spec fn with_options_defaults(l: Seq<(Seq<u8>, Seq<u8>)>) -> Seq<(Seq<u8>, Seq<u8>)> {
    with_default(
        with_default(
            with_default(
                with_default(
                    with_default(
                        with_default(
                            with_default(
                                with_default(l, encapsulated(), null_body_zero()),
                                methods(),
                                methods_value(),
                            ),
                            allow_name(),
                            allow_value(),
                        ),
                        istag(),
                        istag_value(),
                    ),
                    server(),
                    server_value(),
                ),
                preview(),
                zero(),
            ),
            transfer_preview(),
            star(),
        ),
        connection(),
        keep_alive(),
    )
}

/// Adds the header `k: v` unless one named `k` is there.
fn ensure_default(l: &mut HeaderIndicesList, k: Vec<u8>, v: Vec<u8>)
    ensures
        final(l)@ == with_default(old(l)@, k@, v@),
{
    match l.find(k.as_slice()) {
        Some(i) => {
            assert(eq_ignore_case(l@[i as int].0, k@));
        },
        None => {
            l.push(k, v);
        },
    }
}

/// Adds the default headers of replies to adaptation requests.
pub fn ensure_response_headers(l: &mut HeaderIndicesList)
    ensures
        final(l)@ == with_response_defaults(old(l)@),
{
    ensure_default(l, istag_bytes(), istag_value_bytes());
    ensure_default(l, server_bytes(), server_value_bytes());
    ensure_default(l, connection_bytes(), keep_alive_bytes());
}

/// Adds the default headers of 204 replies.
pub fn ensure_204_headers(l: &mut HeaderIndicesList)
    ensures
        final(l)@ == with_204_defaults(old(l)@),
{
    ensure_response_headers(l);
    ensure_default(l, encapsulated_bytes(), null_body_zero_bytes());
}

/// Adds the default headers of OPTIONS replies.
pub fn ensure_options_headers(l: &mut HeaderIndicesList)
    ensures
        final(l)@ == with_options_defaults(old(l)@),
{
    ensure_default(l, encapsulated_bytes(), null_body_zero_bytes());
    ensure_default(l, methods_bytes(), methods_value_bytes());
    ensure_default(l, allow_name_bytes(), allow_value_bytes());
    ensure_default(l, istag_bytes(), istag_value_bytes());
    ensure_default(l, server_bytes(), server_value_bytes());
    ensure_default(l, preview_bytes(), zero_bytes());
    ensure_default(l, transfer_preview_bytes(), star_bytes());
    ensure_default(l, connection_bytes(), keep_alive_bytes());
}

/// The ICAP status line `ICAP/1.0 <code> <reason>\r\n`.
pub open spec fn status_line(code: u16) -> Seq<u8> {
    icap_10() + space() + status_text(code) + crlf()
}

fn write_status_line(out: &mut Vec<u8>, code: u16)
    requires
        100 <= code <= 999,
    ensures
        final(out)@ == old(out)@ + status_line(code),
{
    append_bytes(out, icap_10_bytes().as_slice());
    append_bytes(out, space_bytes().as_slice());
    append_bytes(out, status_line_text(code).as_slice());
    append_bytes(out, crlf_bytes().as_slice());
    assert(out@ =~= old(out)@ + status_line(code));
}

/// The reply that ends a connection after a failure: the status line,
/// `ISTag`, `Encapsulated: null-body=0` and, last, `Connection: close`.
pub open spec fn error_reply(code: u16) -> Seq<u8> {
    status_line(code) + istag_line() + null_body_line() + close_line() + crlf()
}

/// Builds the reply that ends a connection after a failure.
pub fn error_response(code: u16) -> (r: Vec<u8>)
    requires
        100 <= code <= 999,
    ensures
        r@ == error_reply(code),
{
    let mut out: Vec<u8> = Vec::new();
    write_status_line(&mut out, code);
    append_bytes(&mut out, istag_line_bytes().as_slice());
    append_bytes(&mut out, null_body_line_bytes().as_slice());
    append_bytes(&mut out, close_line_bytes().as_slice());
    append_bytes(&mut out, crlf_bytes().as_slice());
    assert(out@ =~= error_reply(code));
    out
}

/// The reply to OPTIONS: the staged status (200 when none), the staged
/// headers with the OPTIONS defaults, an empty line.
pub open spec fn options_reply(status: Option<u16>, hs: Seq<(Seq<u8>, Seq<u8>)>) -> Seq<u8> {
    status_line(
        match status {
            Some(s) => s,
            None => 200,
        },
    ) + encode_headers(with_options_defaults(hs)) + crlf()
}

/// The 204 reply: no adaptation.
pub open spec fn no_content_reply(hs: Seq<(Seq<u8>, Seq<u8>)>) -> Seq<u8> {
    status_line(204) + encode_headers(with_204_defaults(hs)) + crlf()
}

/// The head of the HTTP message synthesized for an append-headers reply:
/// the decoded start line and headers, the appended headers, an empty line.
pub open spec fn appended_head(c: &ReqCtx) -> Seq<u8> {
    (if c.icap_req.method == Method::ReqMod {
        c.http_req.method@ + space() + c.http_req.uri@ + space() + c.http_req.version.name()
            + crlf() + encode_headers(c.http_req.headers@)
    } else {
        c.http_res.version.name() + space() + status_text(c.http_res.status) + crlf()
            + encode_headers(c.http_res.headers@)
    }) + encode_headers(c.out_http_headers@) + crlf()
}

/// The `Encapsulated` value of an append-headers reply whose body begins at `off`.
pub open spec fn appended_encapsulated(c: &ReqCtx, off: nat) -> Seq<u8> {
    let is_req = c.icap_req.method == Method::ReqMod;
    (if is_req {
        req_hdr()
    } else {
        res_hdr()
    }) + eq_zero_sep() + (if c.null_body {
        null_body()
    } else if is_req {
        req_body()
    } else {
        res_body()
    }) + equals_sign() + radix_text(off, 10)
}

/// The append-headers reply: 206 (200 without a body), the ICAP headers,
/// the `Encapsulated` header, then the synthesized HTTP head, and for a
/// message with a body the terminator that asks the client to reuse its body.
pub open spec fn append_reply(c: &ReqCtx) -> Seq<u8> {
    let head = appended_head(c);
    status_line(if c.null_body { 200 } else { 206 }) + encode_headers(
        with_response_defaults(c.out_icap_headers@),
    ) + encapsulated_prefix() + appended_encapsulated(c, head.len()) + crlf() + crlf() + head
        + (if c.null_body {
        Seq::empty()
    } else {
        use_original_body()
    })
}

/// The version of a custom HTTP response: the staged one, else the
/// request's, else HTTP/1.1.
pub open spec fn custom_version(c: &ReqCtx) -> HttpVersion {
    match c.out_http_ver {
        Some(v) => v,
        None => if c.http_req.parsed_len != 0 {
            c.http_req.version
        } else {
            HttpVersion::Http11
        },
    }
}

/// The HTTP response of a custom reply.
pub open spec fn custom_http(c: &ReqCtx, status: u16) -> Seq<u8> {
    custom_version(c).name() + space() + status_text(status) + crlf() + encode_headers(
        c.out_http_headers@,
    ) + crlf()
}

/// The custom reply: 200, the ICAP headers, `Encapsulated: res-hdr=0,
/// null-body=<length of the HTTP response>`, then the HTTP response.
pub open spec fn custom_reply(c: &ReqCtx, status: u16) -> Seq<u8> {
    let http = custom_http(c, status);
    status_line(200) + encode_headers(with_response_defaults(c.out_icap_headers@))
        + encapsulated_prefix() + res_hdr() + eq_zero_sep() + null_body() + equals_sign()
        + radix_text(http.len() as nat, 10) + crlf() + crlf() + http
}

/// The bytes to send for a message, and whether the connection closes after.
pub struct Reply {
    pub bytes: Vec<u8>,
    pub close: bool,
}

/// What the server answers once the callback has handled the message `c`
/// (the context as the callback left it).
pub open spec fn reply_of(c: &ReqCtx) -> (Seq<u8>, bool) {
    if c.icap_req.method == Method::Options {
        (options_reply(c.out_icap_status, c.out_icap_headers@), false)
    } else {
        match c.decision {
            None => (error_reply(500), true),
            Some(AdaptationDecision::NoAdaptation) => (no_content_reply(c.out_icap_headers@), false),
            Some(AdaptationDecision::AppendHeaders) => (append_reply(c), false),
            Some(AdaptationDecision::CustomResponse) => match c.out_http_status {
                None => (error_reply(500), true),
                Some(s) => (custom_reply(c, s), false),
            },
        }
    }
}

/// The encapsulated HTTP payload that a reply leaves in `http_buf`: the
/// synthesized head (and the body terminator) of an append-headers reply,
/// the HTTP response of a custom reply, else what was there.
pub open spec fn reply_payload(c: &ReqCtx) -> Seq<u8> {
    if c.icap_req.method == Method::Options {
        c.http_buf@
    } else {
        match c.decision {
            Some(AdaptationDecision::AppendHeaders) => appended_head(c) + (if c.null_body {
                Seq::empty()
            } else {
                use_original_body()
            }),
            Some(AdaptationDecision::CustomResponse) => match c.out_http_status {
                Some(s) => custom_http(c, s),
                None => c.http_buf@,
            },
            _ => c.http_buf@,
        }
    }
}

/// What the context must satisfy for its reply to be built: staged statuses
/// have three digits, and a RESPMOD message has a decoded response status.
pub open spec fn reply_ready(c: &ReqCtx) -> bool {
    &&& (c.out_icap_status matches Some(s) ==> 100 <= s <= 999)
    &&& (c.out_http_status matches Some(s) ==> 100 <= s <= 999)
    &&& (c.icap_req.method == Method::RespMod ==> 100 <= c.http_res.status <= 999)
}

fn write_decimal(out: &mut Vec<u8>, n: usize)
    ensures
        final(out)@ == old(out)@ + radix_text(n as nat, 10),
{
    write_radix(n, 10, out);
}

impl ReqCtx {
    /// Builds the reply to this message, after the callback ran. The staged
    /// ICAP headers get their defaults; for an append-headers or custom reply
    /// the synthesized HTTP payload is left in `http_buf`.
    pub fn build_reply(&mut self) -> (r: Reply)
        requires
            reply_ready(old(self)),
        ensures
            (r.bytes@, r.close) == reply_of(old(self)),
            final(self).http_buf@ == reply_payload(old(self)),
    {
        if self.icap_req.method == Method::Options {
            let mut out: Vec<u8> = Vec::new();
            let status = match self.out_icap_status {
                Some(s) => s,
                None => 200,
            };
            write_status_line(&mut out, status);
            ensure_options_headers(&mut self.out_icap_headers);
            self.out_icap_headers.encode(&mut out);
            append_bytes(&mut out, crlf_bytes().as_slice());
            assert(out@ =~= options_reply(old(self).out_icap_status, old(self).out_icap_headers@));
            return Reply { bytes: out, close: false };
        }
        match self.decision {
            None => Reply { bytes: error_response(500), close: true },
            Some(AdaptationDecision::NoAdaptation) => {
                let mut out: Vec<u8> = Vec::new();
                write_status_line(&mut out, 204);
                ensure_204_headers(&mut self.out_icap_headers);
                self.out_icap_headers.encode(&mut out);
                append_bytes(&mut out, crlf_bytes().as_slice());
                assert(out@ =~= no_content_reply(old(self).out_icap_headers@));
                Reply { bytes: out, close: false }
            },
            Some(AdaptationDecision::AppendHeaders) => {
                let out = self.append_headers();
                Reply { bytes: out, close: false }
            },
            Some(AdaptationDecision::CustomResponse) => match self.out_http_status {
                None => Reply { bytes: error_response(500), close: true },
                Some(s) => {
                    let out = self.custom_response(s);
                    Reply { bytes: out, close: false }
                },
            },
        }
    }

    #[verifier::rlimit(50)]
    fn append_headers(&mut self) -> (r: Vec<u8>)
        requires
            old(self).icap_req.method != Method::Options,
            reply_ready(old(self)),
        ensures
            r@ == append_reply(old(self)),
            final(self).http_buf@ == appended_head(old(self)) + (if old(self).null_body {
                Seq::empty()
            } else {
                use_original_body()
            }),
    {
        let ghost c0 = *old(self);
        let mut http: Vec<u8> = Vec::new();
        let is_req = self.icap_req.method == Method::ReqMod;
        if is_req {
            append_bytes(&mut http, self.http_req.method.as_slice());
            append_bytes(&mut http, space_bytes().as_slice());
            append_bytes(&mut http, self.http_req.uri.as_slice());
            append_bytes(&mut http, space_bytes().as_slice());
            append_bytes(&mut http, self.http_req.version.as_bytes().as_slice());
            append_bytes(&mut http, crlf_bytes().as_slice());
            self.http_req.headers.encode(&mut http);
        } else {
            append_bytes(&mut http, self.http_res.version.as_bytes().as_slice());
            append_bytes(&mut http, space_bytes().as_slice());
            append_bytes(&mut http, status_line_text(self.http_res.status).as_slice());
            append_bytes(&mut http, crlf_bytes().as_slice());
            self.http_res.headers.encode(&mut http);
        }
        self.out_http_headers.encode(&mut http);
        append_bytes(&mut http, crlf_bytes().as_slice());
        assert(http@ =~= appended_head(&c0));
        let body_off = http.len();
        if !self.null_body {
            append_bytes(&mut http, use_original_body_bytes().as_slice());
        }
        let mut out: Vec<u8> = Vec::new();
        write_status_line(
            &mut out,
            if self.null_body {
                200
            } else {
                206
            },
        );
        ensure_response_headers(&mut self.out_icap_headers);
        self.out_icap_headers.encode(&mut out);
        append_bytes(&mut out, encapsulated_prefix_bytes().as_slice());
        let ghost before_enc = out@;
        if is_req {
            append_bytes(&mut out, req_hdr_bytes().as_slice());
        } else {
            append_bytes(&mut out, res_hdr_bytes().as_slice());
        }
        append_bytes(&mut out, eq_zero_sep_bytes().as_slice());
        if self.null_body {
            append_bytes(&mut out, null_body_bytes().as_slice());
        } else if is_req {
            append_bytes(&mut out, req_body_bytes().as_slice());
        } else {
            append_bytes(&mut out, res_body_bytes().as_slice());
        }
        append_bytes(&mut out, equals_sign_bytes().as_slice());
        write_decimal(&mut out, body_off);
        assert(out@ =~= before_enc + appended_encapsulated(&c0, body_off as nat));
        append_bytes(&mut out, crlf_bytes().as_slice());
        append_bytes(&mut out, crlf_bytes().as_slice());
        append_bytes(&mut out, http.as_slice());
        assert(out@ =~= append_reply(&c0));
        self.http_buf = http;
        out
    }

    fn custom_response(&mut self, status: u16) -> (r: Vec<u8>)
        requires
            100 <= status <= 999,
            reply_ready(old(self)),
        ensures
            r@ == custom_reply(old(self), status),
            final(self).http_buf@ == custom_http(old(self), status),
    {
        let ghost c0 = *old(self);
        let version = match self.out_http_ver {
            Some(v) => v,
            None => if self.http_req.parsed_len != 0 {
                self.http_req.version
            } else {
                HttpVersion::Http11
            },
        };
        let mut http: Vec<u8> = Vec::new();
        append_bytes(&mut http, version.as_bytes().as_slice());
        append_bytes(&mut http, space_bytes().as_slice());
        append_bytes(&mut http, status_line_text(status).as_slice());
        append_bytes(&mut http, crlf_bytes().as_slice());
        self.out_http_headers.encode(&mut http);
        append_bytes(&mut http, crlf_bytes().as_slice());
        assert(http@ =~= custom_http(&c0, status));
        let mut out: Vec<u8> = Vec::new();
        write_status_line(&mut out, 200);
        ensure_response_headers(&mut self.out_icap_headers);
        self.out_icap_headers.encode(&mut out);
        append_bytes(&mut out, encapsulated_prefix_bytes().as_slice());
        append_bytes(&mut out, res_hdr_bytes().as_slice());
        append_bytes(&mut out, eq_zero_sep_bytes().as_slice());
        append_bytes(&mut out, null_body_bytes().as_slice());
        append_bytes(&mut out, equals_sign_bytes().as_slice());
        write_decimal(&mut out, http.len());
        append_bytes(&mut out, crlf_bytes().as_slice());
        append_bytes(&mut out, crlf_bytes().as_slice());
        append_bytes(&mut out, http.as_slice());
        assert(out@ =~= custom_reply(&c0, status));
        self.http_buf = http;
        out
    }
}

/// Where the preview-zero chunk of a request stands.
#[derive(Debug, Copy, Clone, PartialEq, Eq, Structural)]
pub enum PreviewCheck {
    /// More bytes are needed.
    NeedMore,
    /// A zero-length chunk and its final CRLF arrived.
    Ready,
    /// The chunk is malformed or not empty: answer 400.
    Bad,
}

/// What the bytes `b`, from the start of the body, say of the preview-zero
/// chunk.
pub open spec fn preview_check_of(b: Seq<u8>) -> PreviewCheck {
    match chunk_header_of(b) {
        Ok(None) => PreviewCheck::NeedMore,
        Err(_) => PreviewCheck::Bad,
        Ok(Some(h)) => if h.chunk_len != 0 {
            PreviewCheck::Bad
        } else if b.len() < h.line_len + 2 {
            PreviewCheck::NeedMore
        } else if b[h.line_len as int] == CR && b[h.line_len + 1] == LF {
            PreviewCheck::Ready
        } else {
            PreviewCheck::Bad
        },
    }
}

/// Checks the preview-zero chunk at the start of `body`: one chunk header of
/// size zero (an `ieof` extension allowed), then CRLF.
pub fn check_preview_zero(body: &[u8]) -> (r: PreviewCheck)
    ensures
        r == preview_check_of(body@),
{
    match decode_chunk_header(body) {
        Ok(None) => PreviewCheck::NeedMore,
        Err(_) => PreviewCheck::Bad,
        Ok(Some(h)) => {
            if h.chunk_len != 0 {
                PreviewCheck::Bad
            } else if body.len() < 2 || body.len() - 2 < h.line_len {
                PreviewCheck::NeedMore
            } else if body[h.line_len] == CR && body[h.line_len + 1] == LF {
                PreviewCheck::Ready
            } else {
                PreviewCheck::Bad
            }
        },
    }
}

/// The body offset that an append-headers reply announces in its
/// `Encapsulated` header is the length of the synthesized HTTP head, and the
/// payload holds that head followed by the body region.
pub proof fn lemma_append_offset_marks_body(c: &ReqCtx)
    ensures
        ({
            let head = appended_head(c);
            let payload = head + (if c.null_body {
                Seq::empty()
            } else {
                use_original_body()
            });
            &&& append_reply(c) == status_line(if c.null_body { 200 } else { 206 })
                + encode_headers(with_response_defaults(c.out_icap_headers@)) + encapsulated_prefix()
                + appended_encapsulated(c, head.len()) + crlf() + crlf() + payload
            &&& payload.subrange(0, head.len() as int) == head
        }),
{
    let head = appended_head(c);
    let payload = head + (if c.null_body {
        Seq::<u8>::empty()
    } else {
        use_original_body()
    });
    assert(payload.subrange(0, head.len() as int) =~= head);
    assert(append_reply(c) =~= status_line(if c.null_body { 200 } else { 206 })
        + encode_headers(with_response_defaults(c.out_icap_headers@)) + encapsulated_prefix()
        + appended_encapsulated(c, head.len()) + crlf() + crlf() + payload);
}

/// The length that a custom reply announces as `null-body` is the length of
/// the HTTP response that follows the ICAP head.
pub proof fn lemma_custom_offset_marks_end(c: &ReqCtx, status: u16)
    ensures
        custom_reply(c, status) == status_line(200) + encode_headers(
            with_response_defaults(c.out_icap_headers@),
        ) + encapsulated_prefix() + res_hdr() + eq_zero_sep() + null_body() + equals_sign()
            + radix_text(custom_http(c, status).len() as nat, 10) + crlf() + crlf() + custom_http(
            c,
            status,
        ),
{
}

} // verus!
