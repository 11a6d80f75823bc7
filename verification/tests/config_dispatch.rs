use multiproxy::config::{Config, ProxyConfig};
use multiproxy::dispatch::{dispatch, DispatchDecision};
use multiproxy::http::{Header, HttpRequest};
use multiproxy::text::dec_string;

fn route(enable_websocket: bool) -> ProxyConfig {
    ProxyConfig {
        name: "r".to_string(),
        listen_addr: "127.0.0.1".to_string(),
        listen_port: 8899,
        target_addr: "10.0.0.5".to_string(),
        target_port: 8899,
        enable_websocket,
    }
}

fn upgrade_request() -> HttpRequest {
    HttpRequest {
        method: "GET".to_string(),
        scheme: None,
        authority: None,
        path: "/".to_string(),
        query: None,
        headers: vec![
            Header { name: "Connection".to_string(), value: "Upgrade".to_string() },
            Header { name: "Upgrade".to_string(), value: "websocket".to_string() },
        ],
        body: Vec::new(),
    }
}

#[test]
fn endpoint_strings_render_host_and_port() {
    let r = route(false);
    assert_eq!(r.listen_addr(), "127.0.0.1:8899");
    assert_eq!(r.target_host_port(), "10.0.0.5:8899");
    assert_eq!(r.target_url(), "http://10.0.0.5:8899");
    assert_eq!(r.target_ws_url(), "ws://10.0.0.5:8899");
}

#[test]
fn decimal_rendering_of_ports() {
    assert_eq!(dec_string(0), "0");
    assert_eq!(dec_string(7), "7");
    assert_eq!(dec_string(80), "80");
    assert_eq!(dec_string(8899), "8899");
    assert_eq!(dec_string(65535), "65535");
}

#[test]
fn default_config_has_the_two_builtin_routes() {
    let c = Config::default();
    assert_eq!(c.proxies.len(), 2);
    assert_eq!(c.proxies[0].name, "solana-rpc");
    assert_eq!(c.proxies[0].listen_addr, "127.0.0.1");
    assert_eq!(c.proxies[0].listen_port, 8899);
    assert_eq!(c.proxies[0].target_addr, "47.109.157.92");
    assert_eq!(c.proxies[0].target_port, 8899);
    assert!(!c.proxies[0].enable_websocket);
    assert_eq!(c.proxies[1].name, "solana-ws");
    assert_eq!(c.proxies[1].listen_port, 8900);
    assert_eq!(c.proxies[1].target_port, 8900);
    assert!(c.proxies[1].enable_websocket);
    assert_eq!(c.logging.level, "info");
}

#[test]
fn websocket_route_dispatches_upgrade_requests_to_the_upgrade_path() {
    let d = dispatch(&route(true), &upgrade_request());
    assert!(matches!(d, DispatchDecision::WebSocketUpgrade));
}

#[test]
fn route_without_websocket_treats_upgrades_as_plain_http() {
    let d = dispatch(&route(false), &upgrade_request());
    assert!(matches!(d, DispatchDecision::PlainHttp));
}

#[test]
fn plain_request_dispatches_to_plain_http_even_on_websocket_route() {
    let mut req = upgrade_request();
    req.headers.clear();
    let d = dispatch(&route(true), &req);
    assert!(matches!(d, DispatchDecision::PlainHttp));
}
