use stockbit_auth::request::{DecodeError, Method, Request};

#[test]
fn decodes_request_line_headers_and_body() {
    let raw = "POST /login HTTP/1.1\r\nContent-Type: application/json\r\nUser-Agent: Test\r\n\r\n{\"username\":\"alice\"}";
    let req = Request::new(raw).unwrap();
    assert_eq!(req.method, Method::POST);
    assert_eq!(req.path, "/login");
    assert_eq!(req.body, "{\"username\":\"alice\"}");
    assert_eq!(req.header("content-type"), Some("application/json".to_string()));
    assert_eq!(req.header("user-agent"), Some("Test".to_string()));
    assert_eq!(req.header("accept"), None);
}

#[test]
fn header_keys_are_lower_cased_and_trimmed() {
    let raw = "GET /validate HTTP/1.1\r\n  AUTHORIZATION :   Bearer abc  \r\n\r\n";
    let req = Request::new(raw).unwrap();
    assert_eq!(req.method, Method::GET);
    assert_eq!(req.header("authorization"), Some("Bearer abc".to_string()));
}

#[test]
fn later_duplicate_header_wins() {
    let raw = "GET / HTTP/1.1\r\nX-Id: 1\r\nx-id: 2\r\n\r\n";
    let req = Request::new(raw).unwrap();
    assert_eq!(req.header("x-id"), Some("2".to_string()));
}

#[test]
fn header_value_keeps_later_colons() {
    let raw = "GET / HTTP/1.1\r\nHost: localhost:7879\r\nno colon here\r\n\r\n";
    let req = Request::new(raw).unwrap();
    assert_eq!(req.header("host"), Some("localhost:7879".to_string()));
    assert_eq!(req.headers.len(), 1);
}

#[test]
fn body_is_not_split_again() {
    let raw = "POST /register HTTP/1.1\r\n\r\nfirst\r\n\r\nsecond";
    let req = Request::new(raw).unwrap();
    assert_eq!(req.body, "first\r\n\r\nsecond");
}

#[test]
fn missing_blank_line_gives_empty_body() {
    let req = Request::new("GET /validate HTTP/1.1\r\nHost: x").unwrap();
    assert_eq!(req.path, "/validate");
    assert_eq!(req.body, "");
    assert_eq!(req.header("host"), Some("x".to_string()));
}

#[test]
fn path_without_protocol_is_accepted() {
    let req = Request::new("GET /validate").unwrap();
    assert_eq!(req.path, "/validate");
}

#[test]
fn empty_request_is_refused() {
    assert_eq!(Request::new("").err(), Some(DecodeError::EmptyRequest));
    assert_eq!(Request::new("\r\n\r\nbody").err(), Some(DecodeError::EmptyRequest));
}

#[test]
fn missing_method_is_refused() {
    assert_eq!(Request::new("   \r\nHost: x\r\n\r\n").err(), Some(DecodeError::MissingMethod));
}

#[test]
fn unsupported_method_is_refused() {
    let r = Request::new("DELETE /login HTTP/1.1\r\n\r\n");
    assert_eq!(r.err(), Some(DecodeError::UnsupportedMethod));
    assert_eq!(DecodeError::UnsupportedMethod.message(), "Method not supported");
}

#[test]
fn missing_path_is_refused() {
    assert_eq!(Request::new("GET\r\n\r\n").err(), Some(DecodeError::MissingPath));
    assert_eq!(Request::new("POST   \r\n\r\n").err(), Some(DecodeError::MissingPath));
}

#[test]
fn method_tokens() {
    assert_eq!(Method::try_from_str("GET"), Ok(Method::GET));
    assert_eq!(Method::try_from_str("POST"), Ok(Method::POST));
    assert_eq!(Method::try_from_str("get"), Err(DecodeError::UnsupportedMethod));
    assert_eq!(Method::try_from_str(""), Err(DecodeError::UnsupportedMethod));
}
