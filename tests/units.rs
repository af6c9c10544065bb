use icap::chunk::decode_chunk_header;
use icap::decoder::{decode_allow, decode_preview, Allow};
use icap::encapsulated::{parse_encapsulated_list, EncapsulatedEntity};
use icap::encapsulated::EncapsulatedEntity::{NullBody, OptBody, ReqBody, ReqHdr, ResBody, ResHdr};
use icap::errors::DecoderError;
use icap::header::HeaderName;
use icap::id::{Id, IdGenerator};
use icap::service::ErrorCode;

#[test]
fn test_display() {
    let id = Id(0x777);
    assert_eq!(id.to_string(), "0x777");
}

#[test]
fn test_debug() {
    let id = Id(0xABA);
    assert_eq!(id.debug_string(), "Id(0xABA)");
}

#[test]
fn test_id_generator() {
    let mut g = IdGenerator::new();
    assert_eq!(g.next().0, 1);
    assert_eq!(g.next().0, 2);

    let mut g = IdGenerator::with_seed(17);
    assert_eq!(g.next().0, 17);
    assert_eq!(g.next().0, 18);
}

#[test]
fn test_error_code_display() {
    let ec = ErrorCode(0x777);
    assert_eq!(ec.to_string(), "error code: 0x777");
}

#[test]
fn test_partial_eq() {
    let name = HeaderName::new(b"Encapsulated");

    assert_eq!(name, name.clone());
    assert_eq!(name, "encapsulateD");
    assert_eq!(name, b"EnCaPsUlAtEd".as_ref());
    assert_eq!(name.as_str(), "Encapsulated");
}

#[test]
fn test_decode_allow() {
    let expectations: Vec<(&[u8], Allow)> = vec![
        (b"204", Allow { allow_204: true, allow_206: false }),
        (b"206", Allow { allow_204: false, allow_206: true }),
        (b"204, 206", Allow { allow_204: true, allow_206: true }),
        (b"trailers", Allow { allow_204: false, allow_206: false }),
        (b"204, 206, trailers", Allow { allow_204: true, allow_206: true }),
        (b"  ,, 204 , 20 ,trailers, , , , \r\n", Allow { allow_204: true, allow_206: false }),
        (b"  ,, 20 4 , 2 06, trailers,,", Allow { allow_204: false, allow_206: false }),
        (b"204206", Allow { allow_204: false, allow_206: false }),
    ];

    for e in &expectations {
        let allow = decode_allow(e.0).unwrap();
        assert_eq!(allow, e.1);
    }
}

#[test]
fn test_decode_chunk_header() {
    let none: Vec<&[u8]> = vec![
        b"0",
        b" 0",
        b" 0 ",
        b"  0  ",
        b"0; ieof",
        b"0 ; ieof ",
        b"  0; ieof  ",
        b"0; key=val; key; ioef",
    ];
    for e in &none {
        let res = decode_chunk_header(e).unwrap();
        assert_eq!(res, None);
    }

    let some_no_data: Vec<(&[u8], usize, bool)> = vec![
        (b"0\r\n", 0, false),
        (b"ab\r\n", 0xAB, false),
        (b" ab\r\n", 0xAB, false),
        (b"  ab\r\n", 0xAB, false),
        (b"ab \r\n", 0xAB, false),
        (b"ab  \r\n", 0xAB, false),
        (b"bC\r\n", 0xBC, false),
        (b"bcdef\r\n", 0xBCDEF, false),
        (b"0; ieof\r\n", 0, true),
        (b"5; koko=popo; ieof; zozo\r\n", 5, true),
        (b"5; koko = popo; zozo\r\n", 5, false),
        (b" 1; koko=\"\\\rksaj-01q<>{}()[]\" ; ieof; zimmer\r\n", 1, true),
        (b" 1; koko=\"\\\rksaj-01q<>{}()[]\" ; zimmer\r\n", 1, false),
        (b"0; key=val; key; ieof\r\n", 0, true),
        (b"0; key=\"val\\\"\"; key; ieof\r\n", 0, true),
        (b"0; key=\"\"; ieof; key=val\r\n", 0, true),
        (b"10; key=\" \tval\"; key=val\r\n", 16, false),
        (b"5; key ; key = val\r\n", 5, false),
        (b"5; key ; ieof ; key = val \r\n", 5, true),
    ];
    for e in &some_no_data {
        let res = decode_chunk_header(&e.0[..(e.0.len() - 2)]).unwrap();
        assert_eq!(res, None);

        let hdr = decode_chunk_header(e.0).unwrap().unwrap();
        assert_eq!(hdr.line_len, e.0.len());
        assert_eq!(hdr.chunk_len, e.1);
        assert_eq!(hdr.ieof, e.2);
    }

    let some: Vec<(&[u8], usize, usize, bool)> = vec![
        (b"0\r\n\r\n", 0, 3, false),
        (b" 0 \r\n\r\n", 0, 5, false),
        (b"  0  \r\n\r\n", 0, 7, false),
        (b"5\r\nabcde\r\n", 5, 3, false),
        (b"0; ieof\r\n\r\n", 0, 9, true),
        (b"2; ieof\r\nAB\r\n", 2, 9, true),
        (b"2\r\nAB\r\n", 2, 3, false),
    ];
    for e in &some {
        let hdr = decode_chunk_header(e.0).unwrap().unwrap();
        assert_eq!(hdr.chunk_len, e.1);
        assert_eq!(hdr.line_len, e.2);
        assert_eq!(hdr.ieof, e.3);
    }

    let err: Vec<&[u8]> = vec![
        b"\r",
        b"\r\n",
        b" \r\n",
        b"  \r\n",
        b";\r\n",
        b"0;\r\n",
        b"0; key=\r\n",
        b"10; key=val;\r\n",
        b"10; key=val; \r\n",
        b"10; key=v\ral",
        b"10;\rkey=val",
        b"10\r;key=val",
        b"1\r0;key=val",
        b"\r10;key=val",
    ];
    for e in &err {
        let res = decode_chunk_header(e);
        assert!(res.is_err());
    }
}

#[test]
fn test_parse_ee_list() {
    let good: Vec<(&[u8], Vec<EncapsulatedEntity>)> = vec![
        (b"req-hdr=0".as_ref(), vec![ReqHdr(0)]),
        (b"req-body=0".as_ref(), vec![ReqBody(0)]),
        (b"res-hdr=0".as_ref(), vec![ResHdr(0)]),
        (b"res-body=0".as_ref(), vec![ResBody(0)]),
        (b"null-body=0".as_ref(), vec![NullBody(0)]),
        (b"opt-body=0".as_ref(), vec![OptBody(0)]),
        (b"  req-hdr=0, req-body=112".as_ref(), vec![ReqHdr(0), ReqBody(112)]),
        (b"res-hdr=0,  res-body=1124".as_ref(), vec![ResHdr(0), ResBody(1124)]),
        (b"req-hdr=0, res-hdr = 112,  res-body=132  ", vec![ReqHdr(0), ResHdr(112), ResBody(132)]),
        (b"req-hdr=0, res-hdr = 112,  null-body=537  ", vec![ReqHdr(0), ResHdr(112), NullBody(537)]),
        (b"req-hdr=0,res-hdr=100,res-body=1000", vec![ReqHdr(0), ResHdr(100), ResBody(1000)]),
    ];

    for (buf, expected) in &good {
        let el = parse_encapsulated_list(buf).unwrap();
        assert_eq!(el, *expected);
    }
}

#[test]
fn test_parse_ee_list_errors() {
    let bad: Vec<(&[u8], &'static str)> = vec![
        (b"", "no entities"),
        (b"    ", "no entities"),
        (b", req-hdr=12", "empty name"),
        (b"req-hdr=0 , ", "empty name"),
        (b"req-hdr=0,,null-body=128", "empty name"),
        (b"=0", "empty name"),
        (b"req-hdr0", "no equals"),
        (b"null-body=", "no offset"),
        (b"req-hdr=99999999999999999999999999999", "bad offset"),
        (b"reg-hdr=12", "bad name"),
        (b"res-hdr=0,res-body=", "no offset"),
        (b"req-hdr=0, res-hdr=1023, res-body=517", "non increasing offset sequence"),
    ];

    for (buf, reason) in &bad {
        let res = parse_encapsulated_list(buf);
        if let Err(DecoderError::BadEncapsulatedHdr(ref r)) = res {
            assert_eq!(r.as_str(), *reason);
        } else {
            println!("{:?}", res);
            assert!(false);
        }
    }
}

#[test]
fn ee_list_missing_comma_is_refused() {
    let res = parse_encapsulated_list(b"req-hdr=0 null-body=5");
    assert!(matches!(res, Err(DecoderError::BadEncapsulatedHdr(ref r)) if r.as_str() == "no delimiter"));
}

#[test]
fn ee_list_equal_offsets_are_accepted() {
    let el = parse_encapsulated_list(b"res-hdr=0, null-body=0").unwrap();
    assert_eq!(el, vec![ResHdr(0), NullBody(0)]);
}

#[test]
fn ee_list_parse_is_non_empty_and_ordered() {
    for buf in [&b"req-hdr=0, req-body=112"[..], b"req-hdr=0,res-hdr=100,res-body=1000", b"opt-body=7"] {
        let el = parse_encapsulated_list(buf).unwrap();
        assert!(!el.is_empty());
        for w in el.windows(2) {
            assert!(w[0].offset() <= w[1].offset());
        }
    }
}

#[test]
fn ee_list_serialized_form_parses_back() {
    let el = parse_encapsulated_list(b"  req-hdr=0 ,res-hdr = 112,  null-body=537  ").unwrap();
    let text = icap::encapsulated::encode_list(&el);
    assert_eq!(text, b"req-hdr=0, res-hdr=112, null-body=537".to_vec());
    assert_eq!(parse_encapsulated_list(&text).unwrap(), el);
}

#[test]
fn chunk_line_ends_with_crlf() {
    for buf in [&b"0\r\n"[..], b"0; ieof\r\n\r\n", b"5; a=\"b\"\r\nhello"] {
        let h = decode_chunk_header(buf).unwrap().unwrap();
        assert_eq!(&buf[h.line_len - 2..h.line_len], b"\r\n");
    }
}

#[test]
fn chunk_prefixes_are_incomplete() {
    let line = b"1f; ieof; x=\"y\\\"z\"\r\n";
    for k in 0..line.len() {
        assert_eq!(decode_chunk_header(&line[..k]).unwrap(), None);
    }
    let h = decode_chunk_header(line).unwrap().unwrap();
    assert_eq!(h.line_len, line.len());
    assert_eq!(h.chunk_len, 0x1f);
    assert!(h.ieof);
}

#[test]
fn chunk_size_overflow_is_bad_size() {
    let res = decode_chunk_header(b"fffffffffffffffff\r\n");
    assert_eq!(res, Err(DecoderError::BadChunkSize));
}

#[test]
fn preview_value_is_decoded() {
    assert_eq!(decode_preview(b" 0 "), Ok(0));
    assert_eq!(decode_preview(b"1024"), Ok(1024));
    assert_eq!(decode_preview(b"   "), Err(DecoderError::FailedToParsePreview));
    assert_eq!(decode_preview(b"x1"), Err(DecoderError::FailedToParsePreview));
}

#[test]
fn id_generator_counts_from_seed() {
    let mut g = IdGenerator::with_seed(100);
    for n in 1..=5usize {
        assert_eq!(g.next().0, n + 100 - 1);
    }
}

#[test]
fn id_debug_and_display_use_upper_hex() {
    assert_eq!(Id(0).to_string(), "0x0");
    assert_eq!(Id(255).debug_string(), "Id(0xFF)");
}
