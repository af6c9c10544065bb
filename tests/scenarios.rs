use icap::errors::DecoderError;
use icap::messages::{decode_icap_request, IcapRequest};
use icap::pipeline::{Action, Stage};
use icap::request_context::{AdaptationDecision, ReqCtx};
use icap::response::error_response;

fn run(input: &[u8], handler: &dyn Fn(&mut ReqCtx)) -> (Vec<u8>, bool) {
    let mut ctx = ReqCtx::new();
    ctx.append_received(input);
    match ctx.advance(Stage::Init) {
        Action::Read(_) => panic!("the message is incomplete"),
        Action::BadRequest => (error_response(400), true),
        Action::Dispatch(_) => {
            handler(&mut ctx);
            let r = ctx.build_reply();
            (r.bytes, r.close)
        }
    }
}

fn text(b: &[u8]) -> String {
    String::from_utf8(b.to_vec()).unwrap()
}

/// An HTTP request head of exactly `len` bytes.
fn padded_request(len: usize) -> Vec<u8> {
    let base = "GET / HTTP/1.1\r\nHost: x\r\nX-Pad: \r\n\r\n";
    let pad = len - base.len();
    format!("GET / HTTP/1.1\r\nHost: x\r\nX-Pad: {}\r\n\r\n", "a".repeat(pad)).into_bytes()
}

#[test]
fn options_round_trip() {
    let input = b"OPTIONS icap://s/echo ICAP/1.0\r\nHost: s\r\nEncapsulated: null-body=0\r\n\r\n";
    let (out, close) = run(input, &|ctx| {
        ctx.set_icap_status(200);
        ctx.append_icap_res_header("ISTag", "\"V1\"");
    });
    let s = text(&out);
    assert!(!close);
    assert!(s.starts_with("ICAP/1.0 200 OK\r\n"));
    assert!(s.contains("Methods: REQMOD, RESPMOD\r\n"));
    assert!(s.contains("Encapsulated: null-body=0\r\n"));
    assert!(s.contains("ISTag: \"V1\"\r\n"));
    assert!(!s.contains("r-bk-icap"));
    assert!(s.ends_with("\r\n\r\n"));
}

#[test]
fn reqmod_no_adaptation() {
    let mut input = b"REQMOD icap://s ICAP/1.0\r\nEncapsulated: req-hdr=0, null-body=70\r\nAllow: 204\r\n\r\n".to_vec();
    input.extend(padded_request(70));
    let (out, _) = run(&input, &|ctx| ctx.set_decision(AdaptationDecision::NoAdaptation));
    let s = text(&out);
    assert!(s.starts_with("ICAP/1.0 204 No Content\r\n"));
    assert!(s.ends_with("ISTag: \"r-bk-icap\"\r\nServer: r-bk/icap\r\nConnection: keep-alive\r\nEncapsulated: null-body=0\r\n\r\n"));
}

#[test]
fn reqmod_append_headers_with_preview() {
    let mut input = b"REQMOD icap://s ICAP/1.0\r\nEncapsulated: req-hdr=0, req-body=70\r\nAllow: 206\r\nPreview: 0\r\n\r\n".to_vec();
    let req = padded_request(70);
    input.extend(&req);
    input.extend(b"0\r\n\r\n");
    let (out, _) = run(&input, &|ctx| {
        ctx.set_decision(AdaptationDecision::AppendHeaders);
        ctx.append_http_header("X-Tag", "A");
    });
    let s = text(&out);
    assert!(s.starts_with("ICAP/1.0 206 Partial Content\r\n"));
    let mut rewritten = req[..req.len() - 2].to_vec();
    rewritten.extend(b"X-Tag: A\r\n\r\n");
    let expected_tail = format!(
        "Encapsulated: req-hdr=0, req-body={}\r\n\r\n{}0; use-original-body=0\r\n\r\n",
        rewritten.len(),
        text(&rewritten)
    );
    assert!(s.ends_with(&expected_tail), "{}", s);
}

#[test]
fn respmod_custom_response() {
    let mut input = b"RESPMOD icap://s ICAP/1.0\r\nEncapsulated: req-hdr=0, res-hdr=80, res-body=200\r\nAllow: 206\r\nPreview: 0\r\n\r\n".to_vec();
    input.extend(padded_request(80));
    let res_base = "HTTP/1.1 200 OK\r\nContent-Type: text/html\r\nX-Pad: \r\n\r\n";
    let res = format!("HTTP/1.1 200 OK\r\nContent-Type: text/html\r\nX-Pad: {}\r\n\r\n", "b".repeat(120 - res_base.len()));
    assert_eq!(res.len(), 120);
    input.extend(res.as_bytes());
    input.extend(b"0\r\n\r\n");
    let (out, _) = run(&input, &|ctx| {
        ctx.set_decision(AdaptationDecision::CustomResponse);
        ctx.set_http_status(307);
        ctx.append_http_header("Location", "https://x/");
    });
    let s = text(&out);
    let body = "HTTP/1.1 307 Temporary Redirect\r\nLocation: https://x/\r\n\r\n";
    assert!(s.starts_with("ICAP/1.0 200 OK\r\n"));
    assert!(s.contains(&format!("Encapsulated: res-hdr=0, null-body={}\r\n\r\n", body.len())));
    assert!(s.ends_with(body));
}

#[test]
fn bad_encapsulated_gets_400() {
    let input = b"REQMOD icap://s ICAP/1.0\r\nEncapsulated: req-hdr=0, res-hdr=10\r\n\r\n";
    let (out, close) = run(input, &|_| panic!("no callback expected"));
    let s = text(&out);
    assert!(close);
    assert!(s.starts_with("ICAP/1.0 400 Bad Request\r\n"));
    assert!(s.contains("Encapsulated: null-body=0\r\n"));
    assert!(s.ends_with("Connection: close\r\n\r\n"));
}

#[test]
fn non_zero_preview_chunk_gets_400() {
    let mut input = b"REQMOD icap://s ICAP/1.0\r\nEncapsulated: req-hdr=0, req-body=70\r\nAllow: 206\r\nPreview: 0\r\n\r\n".to_vec();
    input.extend(padded_request(70));
    input.extend(b"5\r\nhello\r\n");
    let (out, close) = run(&input, &|_| panic!("no callback expected"));
    assert!(close);
    assert!(text(&out).starts_with("ICAP/1.0 400 Bad Request\r\n"));
}

#[test]
fn null_body_only_list_by_method() {
    let opts = b"OPTIONS icap://s ICAP/1.0\r\nEncapsulated: null-body=0\r\n\r\n";
    let mut ctx = ReqCtx::new();
    ctx.append_received(opts);
    assert_eq!(ctx.init(), Ok(icap::decoder::DecodingStatus::Complete));
    assert_eq!(ctx.ee_list.0, vec![icap::encapsulated::EncapsulatedEntity::NullBody(0)]);
    assert!(ctx.null_body);
    assert_eq!(ctx.body_offset, 0);
    assert_eq!(ctx.header_missing_bytes, 0);
    for m in ["REQMOD", "RESPMOD"] {
        let req = format!("{} icap://s ICAP/1.0\r\nEncapsulated: null-body=0\r\n\r\n", m);
        let mut ctx = ReqCtx::new();
        ctx.append_received(req.as_bytes());
        assert!(matches!(ctx.init(), Err(DecoderError::BadEncapsulatedHdr(_))));
    }
}

#[test]
fn header_count_limit() {
    let mut ok = b"OPTIONS icap://s ICAP/1.0\r\n".to_vec();
    for i in 0..128 {
        ok.extend(format!("X-H{}: v\r\n", i).as_bytes());
    }
    let mut too_many = ok.clone();
    ok.extend(b"\r\n");
    too_many.extend(b"X-Last: v\r\n\r\n");
    let mut req = IcapRequest::default();
    assert_eq!(decode_icap_request(&ok, &mut req), Ok(Some(ok.len())));
    assert_eq!(req.headers.len(), 128);
    let mut req = IcapRequest::default();
    assert!(matches!(decode_icap_request(&too_many, &mut req), Err(DecoderError::BadFormat(_))));
}

#[test]
fn partial_head_asks_for_more() {
    let full = b"OPTIONS icap://s/echo ICAP/1.0\r\nHost: s\r\n\r\n";
    let mut ctx = ReqCtx::new();
    ctx.append_received(&full[..20]);
    assert_eq!(ctx.advance(Stage::Init), Action::Read(Stage::Init));
    ctx.append_received(&full[20..]);
    assert_eq!(ctx.advance(Stage::Init), Action::Dispatch(icap::method::Method::Options));
}

#[test]
fn headers_encode_back_to_lines() {
    let input = b"OPTIONS icap://s ICAP/1.0\r\nHost:   s  \r\nX-A: 1\r\n\r\n";
    let mut req = IcapRequest::default();
    decode_icap_request(input, &mut req).unwrap();
    let mut out = Vec::new();
    req.headers.encode(&mut out);
    assert_eq!(out, b"Host: s\r\nX-A: 1\r\n".to_vec());
}

#[test]
fn shape_after_init_and_entities() {
    let mut input = b"RESPMOD icap://s ICAP/1.0\r\nEncapsulated: res-hdr=0, null-body=19\r\n\r\n".to_vec();
    input.extend(b"HTTP/1.0 404 Nope\r\n");
    let mut ctx = ReqCtx::new();
    ctx.append_received(&input);
    assert_eq!(ctx.init(), Ok(icap::decoder::DecodingStatus::Complete));
    assert_eq!(ctx.ee_list.len(), 2);
    assert!(ctx.parse_entities().is_err());
    ctx.append_received(b"\r\n");
    assert!(ctx.parse_entities().is_ok());
    assert_eq!(ctx.http_res().unwrap().status, 404);
}

#[test]
fn error_codes_and_missing_decision() {
    let input = b"REQMOD icap://s ICAP/1.0\r\nEncapsulated: req-hdr=0, null-body=27\r\n\r\nGET / HTTP/1.1\r\nHost: x\r\n\r\n";
    let (out, close) = run(input, &|_| {});
    assert!(close);
    assert!(text(&out).starts_with("ICAP/1.0 500 Internal Server Error\r\n"));
    let mut req = IcapRequest::default();
    assert!(matches!(decode_icap_request(b"GET icap://s ICAP/1.0\r\n\r\n", &mut req), Err(DecoderError::BadMethod(_))));
    assert!(matches!(decode_icap_request(b"OPTIONS icap://s ICAP/1.1\r\n\r\n", &mut req), Err(DecoderError::BadVersion(_))));
    assert!(matches!(decode_icap_request(b"OPTIONS  ICAP/1.0\r\n\r\n", &mut req), Err(DecoderError::BadUri(_))));
    let body_no_preview = b"REQMOD icap://s ICAP/1.0\r\nEncapsulated: req-hdr=0, req-body=27\r\nAllow: 206\r\n\r\n";
    let mut ctx = ReqCtx::new();
    ctx.append_received(body_no_preview);
    assert_eq!(ctx.init(), Err(DecoderError::NoPreview0));
    let body_no_206 = b"REQMOD icap://s ICAP/1.0\r\nEncapsulated: req-hdr=0, req-body=27\r\nPreview: 0\r\n\r\n";
    let mut ctx = ReqCtx::new();
    ctx.append_received(body_no_206);
    assert_eq!(ctx.init(), Err(DecoderError::NoAllow206));
    let no_enc = b"REQMOD icap://s ICAP/1.0\r\nHost: s\r\n\r\n";
    let mut ctx = ReqCtx::new();
    ctx.append_received(no_enc);
    assert_eq!(ctx.init(), Err(DecoderError::NoEncapsulatedHdr));
}

#[test]
fn late_non_zero_preview_chunk_gets_400() {
    let mut input = b"REQMOD icap://s ICAP/1.0\r\nEncapsulated: req-hdr=0, req-body=70\r\nAllow: 206\r\nPreview: 0\r\n\r\n".to_vec();
    input.extend(padded_request(70));
    let mut ctx = ReqCtx::new();
    ctx.append_received(&input);
    assert_eq!(ctx.advance(Stage::Init), Action::Read(Stage::Preview));
    ctx.append_received(b"5\r\nhello\r\n");
    assert_eq!(ctx.advance(Stage::Preview), Action::BadRequest);
}

#[test]
fn setters_touch_only_their_field() {
    let mut ctx = ReqCtx::new();
    ctx.set_icap_status(200);
    ctx.set_decision(AdaptationDecision::NoAdaptation);
    ctx.append_http_header("X-A", "1");
    assert_eq!(ctx.out_icap_status, Some(200));
    assert_eq!(ctx.decision, Some(AdaptationDecision::NoAdaptation));
    assert_eq!(ctx.out_http_headers.len(), 1);
    assert_eq!(ctx.out_icap_headers.len(), 0);
}
