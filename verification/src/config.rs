//! Route configuration values: one forwarding route maps a local listen
//! endpoint to a remote target endpoint, with a WebSocket-enabled flag.
//! The values arrive already parsed and validated; this module only holds
//! them and renders the endpoint strings the runtime needs.
use vstd::prelude::*;
use vstd::string::StringExecFns;

use crate::text::dec_digits;

verus! {

/// One forwarding route: listen on `listen_addr:listen_port`, forward to
/// `target_addr:target_port`; `enable_websocket` decides whether upgrade
/// requests are tunneled or treated as plain HTTP.
pub struct ProxyConfig {
    pub name: String,
    pub listen_addr: String,
    pub listen_port: u16,
    pub target_addr: String,
    pub target_port: u16,
    pub enable_websocket: bool,
}

/// Diagnostic verbosity, already validated by the loader.
pub struct LoggingConfig {
    pub level: String,
}

/// The whole finalized configuration: the ordered route list and the
/// diagnostic verbosity.
pub struct Config {
    pub proxies: Vec<ProxyConfig>,
    pub logging: LoggingConfig,
}

/// `host:port` as a character sequence.
pub open spec fn spec_host_port(host: Seq<char>, port: u16) -> Seq<char> {
    host + seq![':'] + dec_digits(port as nat)
}

/// `http://host:port` as a character sequence.
pub open spec fn spec_http_base(c: ProxyConfig) -> Seq<char> {
    "http://"@ + spec_host_port(c.target_addr@, c.target_port)
}

/// `ws://host:port` as a character sequence.
pub open spec fn spec_ws_base(c: ProxyConfig) -> Seq<char> {
    "ws://"@ + spec_host_port(c.target_addr@, c.target_port)
}

impl ProxyConfig {
    /// The local endpoint to bind, as `host:port`.
    pub fn listen_addr(&self) -> (r: String)
        ensures
            r@ == spec_host_port(self.listen_addr@, self.listen_port),
    {
        let mut r = self.listen_addr.clone();
        r.append(":");
        let p = crate::text::dec_string(self.listen_port);
        r.append(p.as_str());
        proof {
            reveal_strlit(":");
            assert(r@ =~= spec_host_port(self.listen_addr@, self.listen_port));
        }
        r
    }

    /// The backend endpoint as `host:port`, the authority of every rewritten
    /// request and the value the upgrade path writes into the `Host` header.
    pub fn target_host_port(&self) -> (r: String)
        ensures
            r@ == spec_host_port(self.target_addr@, self.target_port),
    {
        let mut r = self.target_addr.clone();
        r.append(":");
        let p = crate::text::dec_string(self.target_port);
        r.append(p.as_str());
        proof {
            reveal_strlit(":");
            assert(r@ =~= spec_host_port(self.target_addr@, self.target_port));
        }
        r
    }

    /// The backend base URL for plain HTTP, as `http://host:port`.
    pub fn target_url(&self) -> (r: String)
        ensures
            r@ == spec_http_base(*self),
    {
        let mut r = String::from_str("http://");
        r.append(self.target_addr.as_str());
        r.append(":");
        let p = crate::text::dec_string(self.target_port);
        r.append(p.as_str());
        proof {
            reveal_strlit(":");
            assert(r@ =~= spec_http_base(*self));
        }
        r
    }

    /// The backend base URL for WebSocket traffic, as `ws://host:port`.
    pub fn target_ws_url(&self) -> (r: String)
        ensures
            r@ == spec_ws_base(*self),
    {
        let mut r = String::from_str("ws://");
        r.append(self.target_addr.as_str());
        r.append(":");
        let p = crate::text::dec_string(self.target_port);
        r.append(p.as_str());
        proof {
            reveal_strlit(":");
            assert(r@ =~= spec_ws_base(*self));
        }
        r
    }
}

impl Config {
    /// The built-in fallback configuration: one plain-HTTP route on port 8899
    /// and one WebSocket-enabled route on port 8900, both forwarding to the
    /// same backend host.
    pub fn default() -> (r: Config)
        ensures
            r.proxies@.len() == 2,
            r.proxies@[0].name@ == "solana-rpc"@,
            r.proxies@[0].listen_addr@ == "127.0.0.1"@,
            r.proxies@[0].listen_port == 8899,
            r.proxies@[0].target_addr@ == "47.109.157.92"@,
            r.proxies@[0].target_port == 8899,
            !r.proxies@[0].enable_websocket,
            r.proxies@[1].name@ == "solana-ws"@,
            r.proxies@[1].listen_addr@ == "127.0.0.1"@,
            r.proxies@[1].listen_port == 8900,
            r.proxies@[1].target_addr@ == "47.109.157.92"@,
            r.proxies@[1].target_port == 8900,
            r.proxies@[1].enable_websocket,
            r.logging.level@ == "info"@,
    {
        let mut proxies: Vec<ProxyConfig> = Vec::new();
        proxies.push(ProxyConfig {
            name: String::from_str("solana-rpc"),
            listen_addr: String::from_str("127.0.0.1"),
            listen_port: 8899,
            target_addr: String::from_str("47.109.157.92"),
            target_port: 8899,
            enable_websocket: false,
        });
        proxies.push(ProxyConfig {
            name: String::from_str("solana-ws"),
            listen_addr: String::from_str("127.0.0.1"),
            listen_port: 8900,
            target_addr: String::from_str("47.109.157.92"),
            target_port: 8900,
            enable_websocket: true,
        });
        Config { proxies, logging: LoggingConfig { level: String::from_str("info") } }
    }
}

} // verus!
