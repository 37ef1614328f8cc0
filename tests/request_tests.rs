use akira_server::codec::{percent_decode_lossy, percent_decode_strict};
use akira_server::method::Method;
use akira_server::request::{decode_path, normalize_path, parse_body, Other, Request, Route};

fn parse(text: &str) -> Request {
    Request::parse_text(text.to_string(), Other::default())
}

#[test]
fn malformed_request_line() {
    let r = parse("GET /onlyonepiece");
    assert!(!r.is_valid_request);
    assert_eq!(r.method, Method::Unsupported);
    assert_eq!(r.path, "");
    assert_eq!(r.request_headers.host, "");
    assert!(r.request_headers.other.is_empty());
    assert!(r.form_data.form_field.is_empty());
    assert!(r.form_data.multipart_file.is_empty());
    assert!(r.form_data.other.is_empty());
    assert_eq!(r.route(), Route::Invalid);
    assert_eq!(r.get_raw(), "GET /onlyonepiece");
}

#[test]
fn simple_get_request() {
    let r = parse("GET /index.html HTTP/1.1\r\nHost: example.com\r\nUser-Agent: test\r\n\r\n");
    assert!(r.is_valid_request);
    assert_eq!(r.method, Method::GET);
    assert_eq!(r.path, "/index.html");
    assert_eq!(r.request_headers.host, "example.com");
    assert_eq!(r.request_headers.user_agent, "test");
    assert_eq!(r.request_headers.version, "1.1");
    assert_eq!(r.route(), Route::Get);
    assert_eq!(r.get_local_path(&"/srv/www/".to_string()), "/srv/www//index.html");
}

#[test]
fn other_methods_route_to_unsupported() {
    let r = parse("DELETE /x HTTP/1.1\r\n\r\n");
    assert_eq!(r.method, Method::DELETE);
    assert_eq!(r.route(), Route::Unsupported);
    let r = parse("BREW /pot HTTP/1.1\r\n\r\n");
    assert_eq!(r.method, Method::Unsupported);
    assert!(r.is_valid_request);
    assert_eq!(r.route(), Route::Unsupported);
}

#[test]
fn percent_decoded_path() {
    let r = parse("GET /a%20b HTTP/1.1\r\n\r\n");
    assert!(r.is_valid_request);
    assert_eq!(r.path, "/a b");
}

#[test]
fn traversal_is_normalised() {
    assert_eq!(parse("GET /.. HTTP/1.1\r\n\r\n").path, "/");
    assert_eq!(parse("GET /../etc HTTP/1.1\r\n\r\n").path, "/etc");
    assert_eq!(parse("GET /a/../../etc/passwd HTTP/1.1\r\n\r\n").path, "/etc/passwd");
    assert_eq!(parse("GET /%2e%2e/secret HTTP/1.1\r\n\r\n").path, "/secret");
    assert_eq!(normalize_path("/a/./b//c/"), "/a/b/c");
    assert_eq!(normalize_path(""), "/");
    assert_eq!(normalize_path("x/y/.."), "/x");
}

#[test]
fn undecodable_path_invalidates() {
    let r = parse("GET /%FF HTTP/1.1\r\nHost: a\r\n\r\n");
    assert!(!r.is_valid_request);
    assert_eq!(r.path, "");
    assert_eq!(r.method, Method::Unsupported);
    assert_eq!(r.request_headers.host, "");
    assert!(r.request_headers.other.is_empty());
    assert_eq!(r.route(), Route::Invalid);
    assert_eq!(decode_path("/%FF"), None);
    assert_eq!(decode_path("/%C3%B1"), Some("/ñ".to_string()));
}

#[test]
fn bytes_are_cleaned_before_parsing() {
    let mut bytes = b"GET /x HTTP/1.1\r\nHost: h\r\n\r\n".to_vec();
    bytes.extend_from_slice(&[0, 0, 0]);
    let other = Other { remote_ip: "127.0.0.1".to_string(), remote_port: "5000".to_string() };
    let r = Request::parse(&bytes, other);
    assert!(r.is_valid_request);
    assert_eq!(r.get_raw(), "GET /x HTTP/1.1\r\nHost: h\r\n\r\n");
    assert_eq!(r.other.remote_ip, "127.0.0.1");
    assert_eq!(r.other.remote_port, "5000");
    let r = Request::parse(b"GET /\xFF HTTP/1.1\r\n\r\n", Other::default());
    assert!(r.is_valid_request);
    assert_eq!(r.path, "/\u{FFFD}");
}

#[test]
fn empty_input_is_invalid() {
    let r = Request::parse(&[], Other::default());
    assert!(!r.is_valid_request);
    assert_eq!(r.get_raw(), "");
}

#[test]
fn url_encoded_body_in_request() {
    let r = parse("POST /form HTTP/1.1\r\nContent-Type: application/x-www-form-urlencoded\r\n\r\na=1&b=2");
    assert_eq!(r.method, Method::POST);
    let pairs: Vec<(String, String)> =
        r.form_data.form_field.iter().map(|f| (f.name.clone(), f.value.clone())).collect();
    assert_eq!(pairs, vec![("a".to_string(), "1".to_string()), ("b".to_string(), "2".to_string())]);
}

#[test]
fn plain_body_is_kept_in_other() {
    let r = parse("POST /x HTTP/1.1\r\n\r\nhello");
    assert!(r.form_data.form_field.is_empty());
    assert_eq!(r.form_data.other, vec!["hello"]);
}

#[test]
fn body_kinds() {
    let f = parse_body("x=%41", &String::new());
    assert_eq!(f.form_field[0].name, "x");
    assert_eq!(f.form_field[0].value, "A");
    let f = parse_body("", &String::new());
    assert!(f.other.is_empty() && f.form_field.is_empty());
}

#[test]
fn decoders() {
    assert_eq!(percent_decode_lossy("a%20b%zz%"), "a b%zz%");
    assert_eq!(percent_decode_lossy("%FF"), "\u{FFFD}");
    assert_eq!(percent_decode_strict("%41%62"), Some("Ab".to_string()));
    assert_eq!(percent_decode_strict("%FF"), None);
    let r = Request::parse(b"ok\xFF", Other::default());
    assert_eq!(r.get_raw(), "ok\u{FFFD}");
}
