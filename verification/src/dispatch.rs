//! The connection dispatcher: per accepted request, choose between the
//! plain-HTTP forwarding path and the WebSocket upgrade path.
use vstd::prelude::*;

use crate::classify::{is_websocket_upgrade, spec_is_websocket_upgrade};
use crate::config::ProxyConfig;
use crate::http::HttpRequest;

verus! {

/// Where one request goes.
pub enum DispatchDecision {
    PlainHttp,
    WebSocketUpgrade,
}

/// The dispatcher's choice: the upgrade path is taken exactly when the route
/// has WebSocket support enabled and the classifier accepts the request.
/// A route with the flag unset treats all traffic as plain HTTP, whatever
/// the headers say.
pub fn dispatch(route: &ProxyConfig, req: &HttpRequest) -> (d: DispatchDecision)
    ensures
        d is WebSocketUpgrade <==> (route.enable_websocket && spec_is_websocket_upgrade(
            req.headers@,
        )),
        d is PlainHttp <==> !(route.enable_websocket && spec_is_websocket_upgrade(req.headers@)),
{
    if route.enable_websocket && is_websocket_upgrade(req) {
        DispatchDecision::WebSocketUpgrade
    } else {
        DispatchDecision::PlainHttp
    }
}

} // verus!
