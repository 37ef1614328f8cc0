use akira_server::colors::Color;
use akira_server::files::{directory_action, file_headers, file_headers_for, get_web_path, percent_encode, DirectoryAction};
use akira_server::response::headers::{ResponseHeaders, TransferEncoding};
use akira_server::response::status::HttpStatus;
use akira_server::settings::{Server, Settings, Timeouts};

#[test]
fn status_lines_and_codes() {
    assert_eq!(HttpStatus::OK.as_bytes(), b"HTTP/1.1 200 OK\r\n");
    assert_eq!(HttpStatus::NotFound.as_bytes(), b"HTTP/1.1 404 NOT FOUND\r\n");
    assert_eq!(HttpStatus::Undefined.as_bytes(), b"");
    assert_eq!(HttpStatus::GatewayTimeout.as_bytes(), b"HTTP/1.1 504 GATEWAY TIMEOUT\r\n");
    assert_eq!(HttpStatus::OK.to_int(), 200);
    assert_eq!(HttpStatus::Undefined.to_int(), -1);
    assert_eq!(HttpStatus::HTTPVersionNotSupported.to_int(), 505);
    assert_eq!(HttpStatus::default(), HttpStatus::Undefined);
}

#[test]
fn response_head() {
    let mut h = ResponseHeaders::new(HttpStatus::NotImplemented);
    assert_eq!(h.get_headers(), "HTTP/1.1 501 NOT IMPLEMENTED\r\n\r\n");
    let mut h = ResponseHeaders::new(HttpStatus::OK);
    h.set_cross_origin_allow_all();
    h.set_content_length(1024);
    h.set_content_type("text/html".to_string());
    assert_eq!(
        h.get_headers(),
        "HTTP/1.1 200 OK\r\nAccess-Control-Allow-Origin: *\r\nContent-Length: 1024\r\n\r\n"
    );
    h.set_cross_origin_allow_host("example.com".to_string());
    h.set_content_length(0);
    assert_eq!(h.get_headers(), "HTTP/1.1 200 OK\r\nAccess-Control-Allow-Origin: example.com\r\n\r\n");
    assert_eq!(h.content_type, "text/html");
    let d = ResponseHeaders::default();
    assert_eq!(d.status, HttpStatus::Undefined);
    assert_eq!(d.transfer_encoding, TransferEncoding::Undefined);
}

#[test]
fn listing_links() {
    assert_eq!(percent_encode(&"a b.txt".to_string(), false), "a%20b.txt");
    assert_eq!(percent_encode(&"100%".to_string(), false), "100%25");
    assert_eq!(percent_encode(&"dir".to_string(), true), "dir\\");
    assert_eq!(percent_encode(&"ñ?".to_string(), false), "%C3%B1%3F");
}

#[test]
fn web_paths() {
    let r = get_web_path("./www/docs/a.txt".to_string(), &"./www/docs/".to_string(), &"./www/".to_string());
    assert_eq!(r, "a.txt");
    let r = get_web_path("./www/a.txt".to_string(), &"".to_string(), &"./www/".to_string());
    assert_eq!(r, "a.txt");
}

#[test]
fn directory_actions() {
    let files = vec!["a.txt".to_string(), "index.htm".to_string(), "index.html".to_string()];
    let index = vec!["index.html".to_string(), "index.htm".to_string()];
    assert_eq!(directory_action(&files, &index, false), DirectoryAction::ServeIndex(1));
    let none: Vec<String> = vec!["b".to_string()];
    assert_eq!(directory_action(&none, &index, true), DirectoryAction::List);
    assert_eq!(directory_action(&none, &index, false), DirectoryAction::Forbid);
}

#[test]
fn served_file_headers() {
    let mut h = file_headers("site/index.html", 12);
    assert_eq!(h.content_type, "text/html");
    assert_eq!(h.content_length, 12);
    assert_eq!(h.access_control_allow_origin, "*");
    assert_eq!(
        h.get_headers(),
        "HTTP/1.1 200 OK\r\nAccess-Control-Allow-Origin: *\r\nContent-Length: 12\r\n\r\n"
    );
    let h = file_headers("README", 1);
    assert_eq!(h.content_type, "");
    let h = file_headers_for(Some("image/png".to_string()), 3);
    assert_eq!(h.content_type, "image/png");
    assert_eq!(h.status, HttpStatus::OK);
}

#[test]
fn colors() {
    assert_eq!(Color::Default.to_string(), "0");
    assert_eq!(Color::Red.to_string(), "31");
    assert_eq!(Color::BlueLight.to_string(), "96");
}

#[test]
fn settings_helpers() {
    let s = Settings {
        server: Server {
            host: "0.0.0.0".to_string(),
            port: "8080".to_string(),
            ttl: 64,
            root_folder: "./www".to_string(),
            list_directories: true,
            workers_per_thread: 2,
            index: vec!["index.html".to_string()],
        },
        timeout: Timeouts { request_miliseconds: 100 },
        debug: akira_server::settings::Debug {
            active: false,
            error: true,
            warning: true,
            verbose: false,
            log_to_console: true,
            log_to_file: false,
        },
    };
    assert_eq!(s.timeout.get_nanoseconds(), 100_000_000);
    assert_eq!(s.server.worker_count(8), Some(16));
    assert_eq!(s.server.worker_count(usize::MAX), None);
    let s = s.with_root_slash();
    assert_eq!(s.server.root_folder, "./www/");
}
