//! The HTTP forwarder: rewrites a request's destination to the route's
//! backend and says exactly what the forwarded request and the returned
//! response look like. The transport itself (submitting the request) is the
//! runtime's business; this module decides what is sent and what is answered.
use vstd::prelude::*;
use vstd::string::StrSliceExecFns;
use vstd::string::StringExecFns;
use vstd::utf8::encode_utf8;

use crate::config::{spec_host_port, spec_http_base, ProxyConfig};
use crate::http::{opt_str_view, HttpRequest, HttpResponse};

verus! {

/// The status a synthesized gateway-error response carries.
pub const BAD_GATEWAY: u16 = 502;

/// The status with which a backend accepts a protocol upgrade.
pub const SWITCHING_PROTOCOLS: u16 = 101;

/// The query part appended to a rewritten target: `?q` for a present,
/// nonempty query; nothing for an absent or empty one.
pub open spec fn spec_query_part(q: Option<Seq<char>>) -> Seq<char> {
    match q {
        Some(qs) => if qs.len() > 0 {
            seq!['?'] + qs
        } else {
            Seq::<char>::empty()
        },
        None => Seq::<char>::empty(),
    }
}

/// The absolute target URL of a forwarded request: the route's backend base,
/// then the original path, then the original query part, verbatim.
pub open spec fn spec_target_url(base: Seq<char>, path: Seq<char>, q: Option<Seq<char>>) -> Seq<
    char,
> {
    base + path + spec_query_part(q)
}

/// Whether this string is accepted as a URI by the HTTP client's URI parser.
pub uninterp spec fn uri_ok(s: Seq<char>) -> bool;

/// Relies on hyper's `Uri` `FromStr` implementation (`Uri::try_from` on the
/// string's bytes): whether a string parses as a URI is a function of the
/// string alone.
#[verifier::external_body]
pub(crate) fn parse_uri_ok(s: &String) -> (r: bool)
    ensures
        r == uri_ok(s@),
{
    s.parse::<hyper::Uri>().is_ok()
}

/// Build the absolute backend URL for `path` and `query` on `route`.
pub fn build_target_url(route: &ProxyConfig, path: &String, query: &Option<String>) -> (r: String)
    ensures
        r@ == spec_target_url(spec_http_base(*route), path@, opt_str_view(*query)),
{
    let mut r = route.target_url();
    r.append(path.as_str());
    if let Some(q) = query {
        if q.as_str().unicode_len() > 0 {
            r.append("?");
            r.append(q.as_str());
        }
    }
    proof {
        reveal_strlit("?");
        assert(r@ =~= spec_target_url(spec_http_base(*route), path@, opt_str_view(*query)));
    }
    r
}

/// A synthesized gateway-error response: Bad Gateway, no headers, and the
/// diagnostic text as the body.
pub open spec fn spec_bad_gateway(r: HttpResponse, msg: Seq<char>) -> bool {
    &&& r.status == BAD_GATEWAY
    &&& r.headers@.len() == 0
    &&& r.body@ == encode_utf8(msg)
}

/// Make a gateway-error response carrying `msg` as its body.
pub fn bad_gateway(msg: &str) -> (r: HttpResponse)
    ensures
        spec_bad_gateway(r, msg@),
{
    HttpResponse { status: BAD_GATEWAY, headers: Vec::new(), body: msg.as_bytes_vec() }
}

/// What one forwarding attempt does next: submit a rewritten request to the
/// backend, or answer the client at once without contacting the backend.
pub enum ForwardPlan {
    Forward { request: HttpRequest, url: String },
    Reply { response: HttpResponse },
}

/// Plan the forwarding of a plain HTTP request. When the rewritten target
/// parses as a URI, the plan forwards a request whose method, path, query,
/// headers and body are the original's, with only scheme and authority
/// changed to the route's backend. Otherwise the plan answers Bad Gateway
/// immediately, with no request to the backend.
pub fn plan_http_forward(req: HttpRequest, route: &ProxyConfig) -> (p: ForwardPlan)
    ensures
        ({
            let url = spec_target_url(spec_http_base(*route), req.path@, opt_str_view(req.query));
            match p {
                ForwardPlan::Forward { request, url: u } => {
                    &&& uri_ok(url)
                    &&& u@ == url
                    &&& request.method@ == req.method@
                    &&& opt_str_view(request.scheme) == Some("http"@)
                    &&& opt_str_view(request.authority) == Some(
                        spec_host_port(route.target_addr@, route.target_port),
                    )
                    &&& request.path@ == req.path@
                    &&& opt_str_view(request.query) == opt_str_view(req.query)
                    &&& request.headers == req.headers
                    &&& request.body == req.body
                },
                ForwardPlan::Reply { response } => {
                    &&& !uri_ok(url)
                    &&& spec_bad_gateway(response, "Invalid target URI"@)
                },
            }
        }),
{
    let url = build_target_url(route, &req.path, &req.query);
    if parse_uri_ok(&url) {
        ForwardPlan::Forward {
            request: HttpRequest {
                method: req.method,
                scheme: Some(String::from_str("http")),
                authority: Some(route.target_host_port()),
                path: req.path,
                query: req.query,
                headers: req.headers,
                body: req.body,
            },
            url,
        }
    } else {
        ForwardPlan::Reply { response: bad_gateway("Invalid target URI") }
    }
}

/// Turn the backend's answer (or the transport's failure) into the response
/// the client receives: the backend's response verbatim on success, and a
/// Bad Gateway naming the failure otherwise. Never retries.
pub fn response_for_outcome(outcome: Result<HttpResponse, String>) -> (r: HttpResponse)
    ensures
        match outcome {
            Ok(resp) => r == resp,
            Err(e) => spec_bad_gateway(r, "Proxy error: "@ + e@),
        },
{
    match outcome {
        Ok(resp) => resp,
        Err(e) => {
            let mut msg = String::from_str("Proxy error: ");
            msg.append(e.as_str());
            HttpResponse {
                status: BAD_GATEWAY,
                headers: Vec::new(),
                body: msg.as_str().as_bytes_vec(),
            }
        },
    }
}

} // verus!
