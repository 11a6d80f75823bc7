use multiproxy::classify::is_websocket_upgrade;
use multiproxy::http::{header_value, Header, HttpRequest};

fn header(name: &str, value: &str) -> Header {
    Header { name: name.to_string(), value: value.to_string() }
}

fn request_with_headers(headers: Vec<Header>) -> HttpRequest {
    HttpRequest {
        method: "GET".to_string(),
        scheme: None,
        authority: None,
        path: "/".to_string(),
        query: None,
        headers,
        body: Vec::new(),
    }
}

#[test]
fn upgrade_with_exact_headers() {
    let req = request_with_headers(vec![
        header("Connection", "Upgrade"),
        header("Upgrade", "websocket"),
    ]);
    assert!(is_websocket_upgrade(&req));
}

#[test]
fn upgrade_is_case_insensitive() {
    let req = request_with_headers(vec![
        header("CONNECTION", "uPgRaDe"),
        header("UPGRADE", "WebSocket"),
    ]);
    assert!(is_websocket_upgrade(&req));
}

#[test]
fn connection_value_may_contain_upgrade_among_tokens() {
    let req = request_with_headers(vec![
        header("Connection", "keep-alive, Upgrade"),
        header("Upgrade", "websocket"),
    ]);
    assert!(is_websocket_upgrade(&req));
}

#[test]
fn missing_connection_header_is_not_upgrade() {
    let req = request_with_headers(vec![header("Upgrade", "websocket")]);
    assert!(!is_websocket_upgrade(&req));
}

#[test]
fn missing_upgrade_header_is_not_upgrade() {
    let req = request_with_headers(vec![header("Connection", "Upgrade")]);
    assert!(!is_websocket_upgrade(&req));
}

#[test]
fn connection_without_upgrade_token_is_not_upgrade() {
    let req = request_with_headers(vec![
        header("Connection", "keep-alive"),
        header("Upgrade", "websocket"),
    ]);
    assert!(!is_websocket_upgrade(&req));
}

#[test]
fn upgrade_value_must_equal_websocket_not_contain_it() {
    let req = request_with_headers(vec![
        header("Connection", "Upgrade"),
        header("Upgrade", "websocket2"),
    ]);
    assert!(!is_websocket_upgrade(&req));
}

#[test]
fn no_headers_is_not_upgrade() {
    let req = request_with_headers(Vec::new());
    assert!(!is_websocket_upgrade(&req));
}

#[test]
fn header_lookup_is_case_insensitive_and_first_match_wins() {
    let headers = vec![
        header("X-One", "a"),
        header("x-one", "b"),
        header("Host", "example.com"),
    ];
    assert_eq!(header_value(&headers, "X-ONE").map(String::as_str), Some("a"));
    assert_eq!(header_value(&headers, "host").map(String::as_str), Some("example.com"));
    assert_eq!(header_value(&headers, "absent"), None);
}
