//! The upgrade classifier: decides whether a request asks for a WebSocket
//! upgrade. A request is an upgrade attempt exactly when its `Connection`
//! header case-insensitively contains "upgrade" and its `Upgrade` header
//! case-insensitively equals "websocket".
use vstd::prelude::*;

use crate::http::{header_value, spec_header_value, Header, HttpRequest};
use crate::text::{contains_ci, eq_ci, str_contains_ci, str_eq_ci};

verus! {

/// The classifier's contract: true iff a `Connection` header is present whose
/// value case-insensitively contains "upgrade", and an `Upgrade` header is
/// present whose value case-insensitively equals "websocket". Any other
/// combination, including either header being absent, is false.
pub open spec fn spec_is_websocket_upgrade(hs: Seq<Header>) -> bool {
    &&& match spec_header_value(hs, "connection"@) {
        Some(cv) => contains_ci(cv, "upgrade"@),
        None => false,
    }
    &&& match spec_header_value(hs, "upgrade"@) {
        Some(uv) => eq_ci(uv, "websocket"@),
        None => false,
    }
}

/// Decide whether `req` is a WebSocket upgrade attempt. Pure: reads only the
/// request's headers.
pub fn is_websocket_upgrade(req: &HttpRequest) -> (r: bool)
    ensures
        r == spec_is_websocket_upgrade(req.headers@),
{
    match header_value(&req.headers, "connection") {
        Some(conn) => {
            if str_contains_ci(conn.as_str(), "upgrade") {
                match header_value(&req.headers, "upgrade") {
                    Some(up) => str_eq_ci(up.as_str(), "websocket"),
                    None => false,
                }
            } else {
                false
            }
        },
        None => false,
    }
}

} // verus!
