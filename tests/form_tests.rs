use akira_server::form::{multipart_part, FormData, MultipartFile, MultipartFormElement, Part};
use akira_server::multipart_form::MultipartFormData;
use akira_server::request::{Other, Request};

fn pairs(f: &FormData) -> Vec<(String, String)> {
    f.form_field.iter().map(|x| (x.name.clone(), x.value.clone())).collect()
}

#[test]
fn multipart_single_field() {
    let mut f = FormData::default();
    let body = "--B\r\nContent-Disposition: form-data; name=\"f\"\r\n\r\nhello\r\n--B--\r\n";
    f.add_multipart(body.to_string(), &"B".to_string());
    assert_eq!(pairs(&f), vec![("f".to_string(), "hello".to_string())]);
    assert!(f.multipart_file.is_empty());
    assert!(f.other.is_empty());
}

#[test]
fn multipart_request_with_file() {
    let text = "POST /up HTTP/1.1\r\nContent-Type: multipart/form-data; boundary=XX\r\n\r\n\
--XX\r\nContent-Disposition: form-data; name=\"title\"\r\n\r\nmy file\r\n\
--XX\r\nContent-Disposition: form-data; name=\"doc\"; filename=\"a.txt\"\r\nContent-Type: text/plain\r\n\r\nline1\r\n\r\nline2\r\n\
--XX--\r\n";
    let r = Request::parse_text(text.to_string(), Other::default());
    assert!(r.is_valid_request);
    assert_eq!(r.request_headers.content_bounds, "XX");
    assert_eq!(pairs(&r.form_data), vec![("title".to_string(), "my file".to_string())]);
    assert_eq!(r.form_data.multipart_file.len(), 1);
    let file = &r.form_data.multipart_file[0];
    assert_eq!(file.name, "doc");
    assert_eq!(file.filename, "a.txt");
    assert_eq!(file.content_type, "text/plain");
    assert_eq!(file.file, b"line1\r\n\r\nline2".to_vec());
    assert!(r.form_data.other.is_empty());
}

#[test]
fn multipart_segment_without_disposition() {
    let mut f = FormData::default();
    f.add_multipart("--B\r\ngarbage\r\n--B--".to_string(), &"B".to_string());
    assert_eq!(f.other, vec!["\r\ngarbage"]);
    assert!(f.form_field.is_empty());
}

#[test]
fn url_encoded_fields() {
    let mut f = FormData::default();
    f.add_url_encoded("a=1&b=2".to_string());
    assert_eq!(pairs(&f), vec![("a".to_string(), "1".to_string()), ("b".to_string(), "2".to_string())]);
    let mut f = FormData::default();
    f.add_url_encoded("na%20me=v%26x=y&flag".to_string());
    assert_eq!(pairs(&f), vec![("na me".to_string(), "v&x=y".to_string())]);
    assert_eq!(f.other, vec!["flag"]);
}

#[test]
fn element_parts() {
    let e = MultipartFormElement::new("\r\nname=\"f\"\r\n\r\nhello".to_string());
    assert_eq!(e.name, "f");
    assert_eq!(e.content, "hello");
    assert!(!e.is_file);
    let e = MultipartFormElement::new(
        "\r\nname=\"up\"; filename=\"x.bin\"\r\nContent-Type: application/octet-stream\r\n\r\nAB".to_string(),
    );
    assert!(e.is_file);
    assert_eq!(e.filename, "x.bin");
    assert_eq!(e.content_type, "application/octet-stream");
    assert_eq!(e.file, vec![b'A', b'B']);
    assert_eq!(e.content, "");
    let f = MultipartFile::new(e);
    assert_eq!(f.name, "up");
    let e = MultipartFormElement::new("name=\"n\"".to_string());
    assert_eq!(e.name, "n");
    assert_eq!(e.content, "");
}

#[test]
fn parts_are_sorted() {
    assert!(matches!(multipart_part("--"), Part::Skip));
    assert!(matches!(multipart_part("--\r\n"), Part::Skip));
    assert!(matches!(multipart_part(""), Part::Skip));
    match multipart_part("junk\r\n--") {
        Part::Other(t) => assert_eq!(t, "junk"),
        _ => panic!("expected other"),
    }
}

#[test]
fn multipart_form_data_add() {
    let mut m = MultipartFormData::default();
    m.add("\r\nContent-Disposition: form-data; name=\"k\"\r\n\r\nv\r\n--".to_string());
    m.add("--\r\n".to_string());
    m.add("stray".to_string());
    assert_eq!(m.multipart_form_field.len(), 1);
    assert_eq!(m.multipart_form_field[0].name, "k");
    assert_eq!(m.multipart_form_field[0].value, "v");
    assert_eq!(m.other, vec!["stray"]);
}
