use icap::decoder::DecodingStatus;
use icap::errors::DecoderError;
use icap::header::HeaderIterator;
use icap::messages::{decode_http_request, decode_icap_request, HttpRequest, HttpVersion, IcapRequest};
use icap::method::{Method, Version};
use icap::request_context::ReqCtx;
use std::str::FromStr;

#[test]
fn received_bytes_accumulate() {
    let mut ctx = ReqCtx::new();
    ctx.append_received(b"OPTIONS ");
    ctx.append_received(b"icap://s ICAP/1.0\r\n");
    assert_eq!(ctx.received(), b"OPTIONS icap://s ICAP/1.0\r\n");
    assert_eq!(ctx.received_len(), 27);
    ctx.clear();
    assert_eq!(ctx.received_len(), 0);
}

#[test]
fn icap_headers_walk_in_order() {
    let mut ctx = ReqCtx::new();
    ctx.append_received(b"OPTIONS icap://s ICAP/1.0\r\nHost: s\r\nX-Two: 2\r\n\r\n");
    assert_eq!(ctx.init(), Ok(DecodingStatus::Complete));
    let mut it: HeaderIterator = ctx.icap_req_headers();
    let h = it.next().unwrap();
    assert_eq!(h.name, "host");
    assert_eq!(h.value.as_bytes(), b"s");
    let h = it.next().unwrap();
    assert_eq!(h.name.as_str(), "X-Two");
    assert!(it.next().is_none());
}

#[test]
fn http_request_head_is_decoded() {
    let mut req = HttpRequest::default();
    let n = decode_http_request(b"POST /a?b HTTP/1.0\r\nHost: x\r\n\r\nbody", &mut req).unwrap();
    assert_eq!(n, Some(31));
    assert_eq!(req.method, b"POST".to_vec());
    assert_eq!(req.uri, b"/a?b".to_vec());
    assert_eq!(req.version, HttpVersion::Http10);
    assert_eq!(req.headers.len(), 1);
    assert_eq!(decode_http_request(b"GET / HTTP/1.1\r\nHost", &mut req), Ok(None));
    assert!(matches!(decode_http_request(b"G\x01T / HTTP/1.1\r\n\r\n", &mut req), Err(DecoderError::BadMethod(_))));
}

#[test]
fn icap_uri_is_validated() {
    let mut req = IcapRequest::default();
    assert!(matches!(decode_icap_request(b"OPTIONS icap://[::1 ICAP/1.0\r\n\r\n", &mut req), Err(DecoderError::BadUri(_))));
    assert_eq!(decode_icap_request(b"OPTIONS icap://s/x ICAP/1.0\r\n", &mut req), Ok(None));
    assert_eq!(decode_icap_request(b"OPTIONS icap://s/x ICAP/1.0\r\n\r\n", &mut req), Ok(Some(31)));
    assert_eq!(req.uri, b"icap://s/x".to_vec());
    assert_eq!(req.method, Method::Options);
}

#[test]
fn methods_and_versions_by_name() {
    assert_eq!(Method::from_str("REQMOD").unwrap(), Method::ReqMod);
    assert!(Method::from_str("reqmod").is_err());
    assert_eq!(Method::RespMod.as_str(), "RESPMOD");
    assert!(Method::ReqMod.is_any_req() && !Method::Options.is_any_req());
    assert_eq!(Version::from_str("ICAP/1.0").unwrap(), Version::Icap10);
    assert!(Version::from_str("ICAP/1.1").is_err());
    assert_eq!(Version::Icap10.as_str(), "ICAP/1.0");
}
