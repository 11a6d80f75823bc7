use multiproxy::config::ProxyConfig;
use multiproxy::forward::{
    bad_gateway, build_target_url, plan_http_forward, response_for_outcome, ForwardPlan,
};
use multiproxy::http::{Header, HttpRequest, HttpResponse};

fn route_to(target_addr: &str, target_port: u16) -> ProxyConfig {
    ProxyConfig {
        name: "test".to_string(),
        listen_addr: "127.0.0.1".to_string(),
        listen_port: 8899,
        target_addr: target_addr.to_string(),
        target_port,
        enable_websocket: false,
    }
}

fn get_request(path: &str, query: Option<&str>) -> HttpRequest {
    HttpRequest {
        method: "GET".to_string(),
        scheme: None,
        authority: None,
        path: path.to_string(),
        query: query.map(str::to_string),
        headers: vec![Header { name: "Host".to_string(), value: "localhost:8899".to_string() }],
        body: Vec::new(),
    }
}

#[test]
fn target_url_keeps_path_and_query_verbatim() {
    let route = route_to("10.0.0.5", 8899);
    let url = build_target_url(&route, &"/health".to_string(), &Some("x=1".to_string()));
    assert_eq!(url, "http://10.0.0.5:8899/health?x=1");
}

#[test]
fn target_url_without_query_has_no_question_mark() {
    let route = route_to("10.0.0.5", 8899);
    assert_eq!(build_target_url(&route, &"/health".to_string(), &None), "http://10.0.0.5:8899/health");
    assert_eq!(
        build_target_url(&route, &"/health".to_string(), &Some(String::new())),
        "http://10.0.0.5:8899/health"
    );
}

#[test]
fn plain_forward_preserves_method_path_query_headers_body() {
    let route = route_to("10.0.0.5", 8899);
    let req = get_request("/health", Some("x=1"));
    match plan_http_forward(req, &route) {
        ForwardPlan::Forward { request, url } => {
            assert_eq!(url, "http://10.0.0.5:8899/health?x=1");
            assert_eq!(request.method, "GET");
            assert_eq!(request.scheme.as_deref(), Some("http"));
            assert_eq!(request.authority.as_deref(), Some("10.0.0.5:8899"));
            assert_eq!(request.path, "/health");
            assert_eq!(request.query.as_deref(), Some("x=1"));
            assert_eq!(request.headers.len(), 1);
            assert_eq!(request.headers[0].name, "Host");
            assert_eq!(request.headers[0].value, "localhost:8899");
            assert!(request.body.is_empty());
        }
        ForwardPlan::Reply { .. } => panic!("expected a forward plan"),
    }
}

#[test]
fn unparseable_target_answers_bad_gateway_without_forwarding() {
    // A space in the authority makes the rewritten URL fail URI parsing.
    let route = route_to("bad host", 8899);
    let req = get_request("/health", None);
    match plan_http_forward(req, &route) {
        ForwardPlan::Reply { response } => {
            assert_eq!(response.status, 502);
            assert!(response.headers.is_empty());
            assert_eq!(response.body, b"Invalid target URI".to_vec());
        }
        ForwardPlan::Forward { .. } => panic!("expected an immediate reply"),
    }
}

#[test]
fn backend_response_passes_through_unmodified() {
    let resp = HttpResponse {
        status: 200,
        headers: vec![Header { name: "Content-Type".to_string(), value: "text/plain".to_string() }],
        body: b"ok".to_vec(),
    };
    let out = response_for_outcome(Ok(resp));
    assert_eq!(out.status, 200);
    assert_eq!(out.headers.len(), 1);
    assert_eq!(out.headers[0].name, "Content-Type");
    assert_eq!(out.body, b"ok".to_vec());
}

#[test]
fn transport_failure_yields_bad_gateway_with_diagnostic() {
    let out = response_for_outcome(Err("connection refused".to_string()));
    assert_eq!(out.status, 502);
    assert!(out.headers.is_empty());
    assert_eq!(out.body, b"Proxy error: connection refused".to_vec());
}

#[test]
fn bad_gateway_carries_message_as_body() {
    let r = bad_gateway("downstream unavailable");
    assert_eq!(r.status, 502);
    assert_eq!(r.body, b"downstream unavailable".to_vec());
}
