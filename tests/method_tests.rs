use akira_server::method::Method;

#[test]
fn method_tokens_round_trip() {
    let all = [
        Method::CONNECT,
        Method::DELETE,
        Method::GET,
        Method::HEAD,
        Method::OPTIONS,
        Method::POST,
        Method::PUT,
        Method::TRACE,
    ];
    for m in all.iter() {
        let token = m.to_str().to_string();
        assert_eq!(Method::from_str(&token), *m);
        assert_eq!(m.as_str(), m.to_str());
    }
    assert_eq!(Method::GET.to_str(), "GET");
    assert_eq!(Method::OPTIONS.to_str(), "OPTIONS");
}

#[test]
fn unknown_method_is_unsupported() {
    assert_eq!(Method::from_str(&"get".to_string()), Method::Unsupported);
    assert_eq!(Method::from_str(&"PATCH".to_string()), Method::Unsupported);
    assert_eq!(Method::from_str(&"".to_string()), Method::Unsupported);
    assert_eq!(Method::from_str(&"GET ".to_string()), Method::Unsupported);
    assert_eq!(Method::default(), Method::Unsupported);
    assert_eq!(Method::Unsupported.to_str(), "Unsupported");
}
