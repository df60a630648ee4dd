use eve_auth::errors::AuthError;
use eve_auth::http_server::{extract_parameters_from_path, http_ok_response, parse_redirect,
    Server};

#[test]
fn missing_code_is_its_own_error() {
    let line = "GET /cb?state=abc HTTP/1.1".to_string();
    match parse_redirect(&line) {
        Err(AuthError::MissingCode { line: l }) => assert_eq!(l, line),
        other => panic!("expected MissingCode, got {:?}", other.map(|_| ())),
    }
}

#[test]
fn missing_state_is_its_own_error() {
    let line = "GET /cb?code=xyz HTTP/1.1".to_string();
    match parse_redirect(&line) {
        Err(AuthError::MissingState { line: l }) => assert_eq!(l, line),
        other => panic!("expected MissingState, got {:?}", other.map(|_| ())),
    }
}

#[test]
fn parameter_without_value_is_a_parameter_error() {
    let line = "GET /cb?code=abc&state HTTP/1.1".to_string();
    match parse_redirect(&line) {
        Err(AuthError::BadParameter { param }) => assert_eq!(param, "state"),
        other => panic!("expected BadParameter, got {:?}", other.map(|_| ())),
    }
}

#[test]
fn path_without_query_separator_is_a_path_error() {
    let line = "GET /cb HTTP/1.1".to_string();
    match parse_redirect(&line) {
        Err(AuthError::BadPath { path }) => assert_eq!(path, "/cb"),
        other => panic!("expected BadPath, got {:?}", other.map(|_| ())),
    }
}

#[test]
fn path_with_two_query_separators_is_a_path_error() {
    let line = "GET /cb?a=1?b=2 HTTP/1.1".to_string();
    match parse_redirect(&line) {
        Err(AuthError::BadPath { path }) => assert_eq!(path, "/cb?a=1?b=2"),
        other => panic!("expected BadPath, got {:?}", other.map(|_| ())),
    }
}

#[test]
fn short_request_line_is_a_request_line_error() {
    let line = "GET /cb?a=1".to_string();
    assert!(matches!(
        parse_redirect(&line),
        Err(AuthError::BadRequestLine { .. })
    ));
}

#[test]
fn long_request_line_is_a_request_line_error() {
    let line = "GET /cb?a=1 HTTP/1.1 extra".to_string();
    assert!(matches!(
        parse_redirect(&line),
        Err(AuthError::BadRequestLine { .. })
    ));
}

#[test]
fn empty_query_token_is_a_parameter_error() {
    let line = "GET /cb? HTTP/1.1".to_string();
    match parse_redirect(&line) {
        Err(AuthError::BadParameter { param }) => assert_eq!(param, ""),
        other => panic!("expected BadParameter, got {:?}", other.map(|_| ())),
    }
}

#[test]
fn well_formed_redirect_yields_both_parameters() {
    let line = "GET /cb?code=abc&state=xyz HTTP/1.1".to_string();
    let resp = parse_redirect(&line).unwrap();
    assert_eq!(resp.code, "abc");
    assert_eq!(resp.state, "xyz");
}

#[test]
fn later_duplicate_parameter_wins() {
    let line = "GET /cb?code=a&code=b&state=s HTTP/1.1".to_string();
    let resp = parse_redirect(&line).unwrap();
    assert_eq!(resp.code, "b");
}

#[test]
fn parameters_come_back_in_query_order() {
    let line = "GET /cb?one=1&two=2&three=3 HTTP/1.1".to_string();
    let params = extract_parameters_from_path(&line).unwrap();
    let pairs: Vec<(&str, &str)> = params
        .iter()
        .map(|p| (p.0.as_str(), p.1.as_str()))
        .collect();
    assert_eq!(pairs, vec![("one", "1"), ("two", "2"), ("three", "3")]);
}

#[test]
fn confirmation_response_declares_the_exact_body_length() {
    let body = "Code received, you can close this tab now.";
    let expected = format!(
        "HTTP/1.1 200 OK\r\nContent-Length: {}\r\n\r\n{}",
        body.len(),
        body
    );
    assert_eq!(http_ok_response(), expected);
}

#[test]
fn server_keeps_its_endpoint() {
    let server = Server::new("localhost", 35795);
    assert_eq!(server.host, "localhost");
    assert_eq!(server.port, 35795);
}
