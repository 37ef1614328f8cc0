use akira_server::fields::{
    generate_field_string, generate_field_string_vec, generate_field_u64, generate_field_vec_u8,
    parse_u64, start_with,
};
use akira_server::headers::{header_kind, HeaderName, RequestHeaders};

#[test]
fn host_header_alone() {
    let h = RequestHeaders::parse("Host: example.com\r\n");
    assert_eq!(h.host, "example.com");
    assert_eq!(h.other, vec!["".to_string()]);
}

#[test]
fn host_header_in_any_position() {
    let a = RequestHeaders::parse("HTTP/1.1\r\nHost: example.com\r\nAccept: text/html");
    let b = RequestHeaders::parse("HTTP/1.1\r\nAccept: text/html\r\nHost: example.com");
    assert_eq!(a.host, "example.com");
    assert_eq!(b.host, "example.com");
    assert_eq!(a.version, "1.1");
}

#[test]
fn later_host_header_wins() {
    let h = RequestHeaders::parse("Host: first.example\r\nHost: second.example");
    assert_eq!(h.host, "second.example");
    let h = RequestHeaders::parse("Host: second.example\r\nHost: first.example");
    assert_eq!(h.host, "first.example");
}

#[test]
fn content_length_not_a_number_is_zero() {
    let h = RequestHeaders::parse("Content-Length: notanumber\r\nHost: example.com\r\nDNT: 1");
    assert_eq!(h.content_length, 0);
    assert_eq!(h.host, "example.com");
    assert_eq!(h.dnt, "1");
    let h = RequestHeaders::parse("Content-Length: 1234");
    assert_eq!(h.content_length, 1234);
    let h = RequestHeaders::parse("Content-Length: 18446744073709551616");
    assert_eq!(h.content_length, 0);
}

#[test]
fn header_names_ignore_case() {
    let h = RequestHeaders::parse("hOsT: example.com\r\nuser-agent: curl/8.0");
    assert_eq!(h.host, "example.com");
    assert_eq!(h.user_agent, "curl/8.0");
    assert!(h.other.is_empty());
}

#[test]
fn list_headers() {
    let h = RequestHeaders::parse(
        "Accept: text/html,application/xml;q=0.9\r\nAccept-Encoding: gzip, deflate",
    );
    assert_eq!(h.accept, vec!["text/html", "application/xml", "q=0.9"]);
    assert_eq!(h.accept_encoding, vec!["gzip,", "deflate"]);
}

#[test]
fn content_type_boundary() {
    let h = RequestHeaders::parse("Content-Type: multipart/form-data; boundary=XyZ");
    assert_eq!(h.content_type, "multipart/form-data");
    assert_eq!(h.content_bounds, "XyZ");
    let h = RequestHeaders::parse("Content-Type: text/plain; charset=utf-8");
    assert_eq!(h.content_type, "text/plain; charset=utf-8");
    assert_eq!(h.content_bounds, "");
    let h = RequestHeaders::parse("Content-Type: multipart/form-data; charset=utf-8; boundary=Q1");
    assert_eq!(h.content_type, "multipart/form-data; charset=utf-8");
    assert_eq!(h.content_bounds, "Q1");
}

#[test]
fn prefix_test_folds_unicode_case() {
    assert!(start_with("É", "é"));
    assert!(start_with("ÉTÉ: x", "été: "));
    assert!(!start_with("E", "é"));
    let mut s = String::new();
    assert!(generate_field_string(&mut s, "FROM: ÀB", "From: "));
    assert_eq!(s, "ÀB");
}

#[test]
fn unknown_lines_are_kept() {
    let h = RequestHeaders::parse("X-Custom: 1\r\nHost: a\r\nX-Other: 2");
    assert_eq!(h.other, vec!["X-Custom: 1", "X-Other: 2"]);
    assert_eq!(h.host, "a");
}

#[test]
fn header_kind_priority() {
    assert_eq!(header_kind("TE: trailers"), Some(HeaderName::Te));
    assert_eq!(header_kind("HTTP/1.1"), Some(HeaderName::Version));
    assert_eq!(header_kind("Accept-Charset: utf-8"), Some(HeaderName::AcceptCharset));
    assert_eq!(header_kind("Hostname: x"), None);
}

#[test]
fn field_extractors() {
    let mut s = String::from("old");
    assert!(generate_field_string(&mut s, "host: a b ", "Host: "));
    assert_eq!(s, "a b ");
    assert!(!generate_field_string(&mut s, "Via: x", "Host: "));
    assert_eq!(s, "a b ");
    let mut v: Vec<String> = Vec::new();
    assert!(generate_field_string_vec(&mut v, "Accept-Encoding: br gzip", "Accept-Encoding: "));
    assert_eq!(v, vec!["br", "gzip"]);
    let mut n: u64 = 7;
    assert!(generate_field_u64(&mut n, "Content-Length: x1", "Content-Length: "));
    assert_eq!(n, 0);
    assert!(generate_field_u64(&mut n, "Content-Length: +42", "Content-Length: "));
    assert_eq!(n, 42);
    let mut b: Vec<u8> = Vec::new();
    generate_field_vec_u8(&mut b, "añ");
    assert_eq!(b, vec![0x61, 0xC3, 0xB1]);
    assert!(start_with("CONTENT-type: x", "Content-Type: "));
    assert!(!start_with("Content", "Content-Type: "));
}

#[test]
fn decimal_numbers() {
    assert_eq!(parse_u64("0"), Some(0));
    assert_eq!(parse_u64("18446744073709551615"), Some(u64::MAX));
    assert_eq!(parse_u64("18446744073709551616"), None);
    assert_eq!(parse_u64(""), None);
    assert_eq!(parse_u64("+"), None);
    assert_eq!(parse_u64("-1"), None);
    assert_eq!(parse_u64("12a"), None);
}
