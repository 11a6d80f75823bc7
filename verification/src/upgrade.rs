//! The upgrade negotiator: plans the forwarding of a WebSocket upgrade
//! request (destination rewrite plus `Host` header rewrite), decides what to
//! do with the backend's reply, and coordinates the dual handshake — the
//! requirement that both the client-facing and the backend-facing upgrade
//! resolve before a tunnel may start.
use vstd::prelude::*;
use vstd::string::StringExecFns;

use crate::config::{spec_host_port, spec_http_base, ProxyConfig};
use crate::forward::{
    bad_gateway, build_target_url, parse_uri_ok, spec_bad_gateway, spec_target_url, uri_ok,
    ForwardPlan, SWITCHING_PROTOCOLS,
};
use crate::http::{header_entries, opt_str_view, Header, HttpRequest, HttpResponse};
use crate::text::eq_ci;

verus! {

// ------------------------------------------------------------------
// Host header rewrite
// ------------------------------------------------------------------
/// A header list with `name` set to `value`: the first header whose name
/// matches case-insensitively keeps its name and takes the new value; every
/// other header is unchanged; when no name matches, the pair is appended.
pub open spec fn spec_set_entry(
    es: Seq<(Seq<char>, Seq<char>)>,
    name: Seq<char>,
    value: Seq<char>,
) -> Seq<(Seq<char>, Seq<char>)>
    decreases es.len(),
{
    if es.len() == 0 {
        seq![(name, value)]
    } else if eq_ci(es[0].0, name) {
        seq![(es[0].0, value)] + es.drop_first()
    } else {
        seq![es[0]] + spec_set_entry(es.drop_first(), name, value)
    }
}

/// When position `k` holds the first matching name, setting the entry is
/// updating position `k` in place.
proof fn lemma_set_entry_found(
    es: Seq<(Seq<char>, Seq<char>)>,
    name: Seq<char>,
    value: Seq<char>,
    k: int,
)
    requires
        0 <= k < es.len(),
        eq_ci(es[k].0, name),
        forall|j: int| 0 <= j < k ==> !eq_ci(es[j].0, name),
    ensures
        spec_set_entry(es, name, value) =~= es.update(k, (es[k].0, value)),
    decreases k,
{
    if k == 0 {
        assert(seq![(es[0].0, value)] + es.drop_first() =~= es.update(0, (es[0].0, value)));
    } else {
        assert(!eq_ci(es[0].0, name));
        assert forall|j: int| 0 <= j < k - 1 implies !eq_ci(es.drop_first()[j].0, name) by {
            assert(es.drop_first()[j] == es[j + 1]);
        }
        assert(es.drop_first()[k - 1] == es[k]);
        lemma_set_entry_found(es.drop_first(), name, value, k - 1);
        assert(seq![es[0]] + es.drop_first().update(k - 1, (es[k].0, value)) =~= es.update(
            k,
            (es[k].0, value),
        ));
    }
}

/// When no name matches, setting the entry is appending the pair.
proof fn lemma_set_entry_absent(es: Seq<(Seq<char>, Seq<char>)>, name: Seq<char>, value: Seq<char>)
    requires
        forall|j: int| 0 <= j < es.len() ==> !eq_ci(es[j].0, name),
    ensures
        spec_set_entry(es, name, value) =~= es.push((name, value)),
    decreases es.len(),
{
    if es.len() == 0 {
    } else {
        assert(!eq_ci(es[0].0, name));
        assert forall|j: int| 0 <= j < es.drop_first().len() implies !eq_ci(
            es.drop_first()[j].0,
            name,
        ) by {
            assert(es.drop_first()[j] == es[j + 1]);
        }
        lemma_set_entry_absent(es.drop_first(), name, value);
        assert(seq![es[0]] + es.drop_first().push((name, value)) =~= es.push((name, value)));
    }
}

/// Set header `name` to `value` in `headers`, case-insensitively on the name:
/// replace the first matching header's value, or append the pair if absent.
pub fn set_header(headers: Vec<Header>, name: &str, value: String) -> (out: Vec<Header>)
    ensures
        header_entries(out@) == spec_set_entry(header_entries(headers@), name@, value@),
{
    let n = headers.len();
    let mut idx_opt: Option<usize> = None;
    let mut i: usize = 0;
    while i < n
        invariant
            n == headers@.len(),
            i <= n,
            match idx_opt {
                None => forall|j: int| 0 <= j < i ==> !eq_ci(headers@[j].name@, name@),
                Some(k) => k < i && eq_ci(headers@[k as int].name@, name@) && forall|j: int|
                    0 <= j < k ==> !eq_ci(headers@[j].name@, name@),
            },
        decreases n - i,
    {
        if idx_opt.is_none() && crate::text::str_eq_ci(headers[i].name.as_str(), name) {
            idx_opt = Some(i);
        }
        i += 1;
    }
    let mut out: Vec<Header> = Vec::new();
    let mut i: usize = 0;
    match idx_opt {
        Some(k) => {
            while i < n
                invariant
                    n == headers@.len(),
                    k < n,
                    i <= n,
                    out@.len() == i,
                    forall|j: int|
                        0 <= j < i ==> out@[j].name@ == headers@[j].name@ && out@[j].value@ == (
                        if j == k {
                            value@
                        } else {
                            headers@[j].value@
                        }),
                decreases n - i,
            {
                if i == k {
                    out.push(
                        Header { name: headers[i].name.clone(), value: value.clone() },
                    );
                } else {
                    out.push(headers[i].duplicate());
                }
                i += 1;
            }
            proof {
                let es = header_entries(headers@);
                assert forall|j: int| 0 <= j < k implies !eq_ci(es[j].0, name@) by {
                    assert(es[j].0 == headers@[j].name@);
                }
                assert(es[k as int].0 == headers@[k as int].name@);
                lemma_set_entry_found(es, name@, value@, k as int);
                assert(header_entries(out@) =~= es.update(k as int, (es[k as int].0, value@)));
            }
            out
        },
        None => {
            while i < n
                invariant
                    n == headers@.len(),
                    i <= n,
                    out@.len() == i,
                    forall|j: int|
                        0 <= j < i ==> out@[j].name@ == headers@[j].name@ && out@[j].value@
                            == headers@[j].value@,
                decreases n - i,
            {
                out.push(headers[i].duplicate());
                i += 1;
            }
            out.push(Header { name: name.to_owned(), value });
            proof {
                let es = header_entries(headers@);
                assert forall|j: int| 0 <= j < es.len() implies !eq_ci(es[j].0, name@) by {
                    assert(es[j].0 == headers@[j].name@);
                }
                lemma_set_entry_absent(es, name@, value@);
                assert(header_entries(out@) =~= es.push((name@, value@)));
            }
            out
        },
    }
}

// ------------------------------------------------------------------
// Planning the upgrade request
// ------------------------------------------------------------------
/// Whether this string is accepted as an HTTP header value.
pub uninterp spec fn header_value_ok(s: Seq<char>) -> bool;

/// Relies on hyper's `HeaderValue::from_str`: whether a string is a valid
/// header value is a function of the string alone (bytes 32..=255 except
/// DEL, plus tab).
#[verifier::external_body]
fn parse_header_value_ok(s: &String) -> (r: bool)
    ensures
        r == header_value_ok(s@),
{
    hyper::header::HeaderValue::from_str(s.as_str()).is_ok()
}

/// The `Host` value the upgrade rewrite uses: the backend's `host:port`
/// when it is a valid header value, a safe default otherwise.
pub open spec fn spec_upgrade_host(route: ProxyConfig) -> Seq<char> {
    let hp = spec_host_port(route.target_addr@, route.target_port);
    if header_value_ok(hp) {
        hp
    } else {
        "localhost"@
    }
}

/// Plan the forwarding of an upgrade request: the destination is rewritten
/// exactly as for plain HTTP, and additionally the `Host` header is set to
/// the backend's `host:port` (or a safe default when that is not a valid
/// header value). Everything else about the request is preserved. When the
/// rewritten target does not parse as a URI, the plan answers Bad Gateway
/// immediately, with no request to the backend.
pub fn plan_upgrade_forward(req: HttpRequest, route: &ProxyConfig) -> (p: ForwardPlan)
    ensures
        ({
            let url = spec_target_url(spec_http_base(*route), req.path@, opt_str_view(req.query));
            match p {
                ForwardPlan::Forward { request, url: u } => {
                    &&& uri_ok(url)
                    &&& u@ == url
                    &&& request.method@ == req.method@
                    &&& opt_str_view(request.scheme) == Some("http"@)
                    &&& opt_str_view(request.authority) == Some(
                        spec_host_port(route.target_addr@, route.target_port),
                    )
                    &&& request.path@ == req.path@
                    &&& opt_str_view(request.query) == opt_str_view(req.query)
                    &&& header_entries(request.headers@) == spec_set_entry(
                        header_entries(req.headers@),
                        "host"@,
                        spec_upgrade_host(*route),
                    )
                    &&& request.body == req.body
                },
                ForwardPlan::Reply { response } => {
                    &&& !uri_ok(url)
                    &&& spec_bad_gateway(response, "Invalid target URI"@)
                },
            }
        }),
{
    let url = build_target_url(route, &req.path, &req.query);
    if parse_uri_ok(&url) {
        let hp = route.target_host_port();
        let host = if parse_header_value_ok(&hp) {
            hp
        } else {
            String::from_str("localhost")
        };
        let headers = set_header(req.headers, "host", host);
        ForwardPlan::Forward {
            request: HttpRequest {
                method: req.method,
                scheme: Some(String::from_str("http")),
                authority: Some(route.target_host_port()),
                path: req.path,
                query: req.query,
                headers,
                body: req.body,
            },
            url,
        }
    } else {
        ForwardPlan::Reply { response: bad_gateway("Invalid target URI") }
    }
}

// ------------------------------------------------------------------
// The backend's reply to the upgrade request
// ------------------------------------------------------------------
/// What to do with the backend's reply to a forwarded upgrade request.
pub enum UpgradeDecision {
    /// The backend declined: its reply goes back to the client unmodified
    /// and no tunnel is established.
    PassThrough { response: HttpResponse },
    /// The backend accepted with Switching Protocols: proceed to the dual
    /// handshake; the reply still goes back to the client by the normal
    /// response path.
    ProceedHandshake { response: HttpResponse },
}

/// Inspect the backend's reply: anything other than Switching Protocols is
/// passed through verbatim with no tunnel; Switching Protocols proceeds to
/// the dual handshake. Either way the reply itself is unmodified.
pub fn decide_upgrade_response(resp: HttpResponse) -> (d: UpgradeDecision)
    ensures
        match d {
            UpgradeDecision::PassThrough { response } => resp.status != SWITCHING_PROTOCOLS
                && response == resp,
            UpgradeDecision::ProceedHandshake { response } => resp.status == SWITCHING_PROTOCOLS
                && response == resp,
        },
{
    if resp.status == SWITCHING_PROTOCOLS {
        UpgradeDecision::ProceedHandshake { response: resp }
    } else {
        UpgradeDecision::PassThrough { response: resp }
    }
}

// ------------------------------------------------------------------
// The dual handshake
// ------------------------------------------------------------------
/// One side of the dual handshake: not yet resolved, resolved into a raw
/// stream, or failed.
#[derive(Clone, Copy)]
pub enum SideState {
    Pending,
    Resolved,
    Failed,
}

/// The state of the dual handshake: the client-facing and backend-facing
/// upgrade completions, tracked independently.
#[derive(Clone, Copy)]
pub struct DualHandshake {
    pub client: SideState,
    pub backend: SideState,
}

/// One side's completion reporting its result.
#[derive(Clone, Copy)]
pub enum HandshakeEvent {
    ClientResolved,
    ClientFailed,
    BackendResolved,
    BackendFailed,
}

/// What the handshake state calls for: keep waiting, start the relay over
/// the two raw streams, or abandon both sides with no relay.
#[derive(Clone, Copy)]
pub enum HandshakeOutcome {
    Wait,
    StartTunnel,
    Abort,
}

/// The handshake transition: an event settles its own side, and only from
/// `Pending` — a settled side never changes again.
pub open spec fn spec_handshake_step(h: DualHandshake, ev: HandshakeEvent) -> DualHandshake {
    match ev {
        HandshakeEvent::ClientResolved => if h.client is Pending {
            DualHandshake { client: SideState::Resolved, backend: h.backend }
        } else {
            h
        },
        HandshakeEvent::ClientFailed => if h.client is Pending {
            DualHandshake { client: SideState::Failed, backend: h.backend }
        } else {
            h
        },
        HandshakeEvent::BackendResolved => if h.backend is Pending {
            DualHandshake { client: h.client, backend: SideState::Resolved }
        } else {
            h
        },
        HandshakeEvent::BackendFailed => if h.backend is Pending {
            DualHandshake { client: h.client, backend: SideState::Failed }
        } else {
            h
        },
    }
}

/// Join semantics, failing fast: any failed side aborts, both sides resolved
/// starts the tunnel, and otherwise the handshake keeps waiting.
pub open spec fn spec_handshake_outcome(h: DualHandshake) -> HandshakeOutcome {
    if h.client is Failed || h.backend is Failed {
        HandshakeOutcome::Abort
    } else if h.client is Resolved && h.backend is Resolved {
        HandshakeOutcome::StartTunnel
    } else {
        HandshakeOutcome::Wait
    }
}

/// A handshake driven through a whole sequence of events.
pub open spec fn spec_handshake_run(h: DualHandshake, evs: Seq<HandshakeEvent>) -> DualHandshake
    decreases evs.len(),
{
    if evs.len() == 0 {
        h
    } else {
        spec_handshake_run(spec_handshake_step(h, evs[0]), evs.drop_first())
    }
}

impl DualHandshake {
    /// A fresh handshake: neither side has completed.
    pub fn new() -> (h: DualHandshake)
        ensures
            h.client is Pending,
            h.backend is Pending,
    {
        DualHandshake { client: SideState::Pending, backend: SideState::Pending }
    }

    /// Record one side's completion.
    pub fn on_event(&mut self, ev: HandshakeEvent)
        ensures
            *final(self) == spec_handshake_step(*old(self), ev),
    {
        match ev {
            HandshakeEvent::ClientResolved => {
                if let SideState::Pending = self.client {
                    self.client = SideState::Resolved;
                }
            },
            HandshakeEvent::ClientFailed => {
                if let SideState::Pending = self.client {
                    self.client = SideState::Failed;
                }
            },
            HandshakeEvent::BackendResolved => {
                if let SideState::Pending = self.backend {
                    self.backend = SideState::Resolved;
                }
            },
            HandshakeEvent::BackendFailed => {
                if let SideState::Pending = self.backend {
                    self.backend = SideState::Failed;
                }
            },
        }
    }

    /// What the current state calls for.
    pub fn outcome(&self) -> (o: HandshakeOutcome)
        ensures
            o == spec_handshake_outcome(*self),
    {
        match self.client {
            SideState::Failed => HandshakeOutcome::Abort,
            _ => match self.backend {
                SideState::Failed => HandshakeOutcome::Abort,
                _ => {
                    let client_resolved = match self.client {
                        SideState::Resolved => true,
                        _ => false,
                    };
                    let backend_resolved = match self.backend {
                        SideState::Resolved => true,
                        _ => false,
                    };
                    if client_resolved && backend_resolved {
                        HandshakeOutcome::StartTunnel
                    } else {
                        HandshakeOutcome::Wait
                    }
                },
            },
        }
    }
}

/// The dual-handshake invariant: a tunnel starts exactly when both the
/// client-facing and the backend-facing upgrade have resolved.
pub proof fn lemma_tunnel_iff_both_resolved(h: DualHandshake)
    ensures
        spec_handshake_outcome(h) is StartTunnel <==> (h.client is Resolved
            && h.backend is Resolved),
{
}

/// Once either side has failed, no sequence of further handshake events ever
/// reaches a state that starts a tunnel: the failure is final.
pub proof fn lemma_no_tunnel_after_failure(h: DualHandshake, evs: Seq<HandshakeEvent>)
    requires
        h.client is Failed || h.backend is Failed,
    ensures
        !(spec_handshake_outcome(spec_handshake_run(h, evs)) is StartTunnel),
    decreases evs.len(),
{
    if evs.len() > 0 {
        lemma_no_tunnel_after_failure(spec_handshake_step(h, evs[0]), evs.drop_first());
    }
}

// ------------------------------------------------------------------
// The negotiation protocol as a whole
// ------------------------------------------------------------------
/// The negotiator's protocol state for one upgrade attempt, from forwarding
/// the upgrade request to either a running tunnel or a final refusal.
#[derive(Clone, Copy)]
pub enum NegotiationState {
    /// The rewritten upgrade request has been submitted; the backend's reply
    /// is awaited.
    AwaitingBackendReply,
    /// The backend declined with this status; its reply passes through to
    /// the client and the attempt is over.
    Declined { status: u16 },
    /// The backend accepted with Switching Protocols; both upgrade
    /// completions are now awaited.
    AwaitingHandshake { handshake: DualHandshake },
    /// Both sides resolved; the relay owns the two raw streams.
    TunnelStarted,
    /// A handshake side failed after the backend's acceptance; no tunnel,
    /// both sides released.
    Failed,
}

/// What moves the negotiation forward: the backend's reply, or one
/// handshake side's completion.
#[derive(Clone, Copy)]
pub enum NegotiationEvent {
    BackendReplied { status: u16 },
    Handshake { event: HandshakeEvent },
}

/// The event is the backend accepting the upgrade with Switching Protocols.
pub open spec fn is_accept_reply(ev: NegotiationEvent) -> bool {
    ev matches NegotiationEvent::BackendReplied { status } && status == SWITCHING_PROTOCOLS
}

/// The negotiation transition. A reply while one is awaited either declines
/// (anything but Switching Protocols) or opens the dual handshake; handshake
/// events then settle their side, and the handshake's join semantics decide
/// tunnel or failure. `Declined`, `TunnelStarted` and `Failed` are final,
/// and an event that its state does not await changes nothing.
pub open spec fn spec_negotiation_step(
    s: NegotiationState,
    ev: NegotiationEvent,
) -> NegotiationState {
    match s {
        NegotiationState::AwaitingBackendReply => match ev {
            NegotiationEvent::BackendReplied { status } => if status == SWITCHING_PROTOCOLS {
                NegotiationState::AwaitingHandshake {
                    handshake: DualHandshake {
                        client: SideState::Pending,
                        backend: SideState::Pending,
                    },
                }
            } else {
                NegotiationState::Declined { status }
            },
            _ => s,
        },
        NegotiationState::AwaitingHandshake { handshake } => match ev {
            NegotiationEvent::Handshake { event } => {
                let h = spec_handshake_step(handshake, event);
                match spec_handshake_outcome(h) {
                    HandshakeOutcome::StartTunnel => NegotiationState::TunnelStarted,
                    HandshakeOutcome::Abort => NegotiationState::Failed,
                    HandshakeOutcome::Wait => NegotiationState::AwaitingHandshake { handshake: h },
                }
            },
            _ => s,
        },
        _ => s,
    }
}

/// A negotiation driven through a whole sequence of events.
pub open spec fn spec_negotiation_run(
    s: NegotiationState,
    evs: Seq<NegotiationEvent>,
) -> NegotiationState
    decreases evs.len(),
{
    if evs.len() == 0 {
        s
    } else {
        spec_negotiation_run(spec_negotiation_step(s, evs[0]), evs.drop_first())
    }
}

/// One upgrade attempt, driven by the runtime: submit, read the backend's
/// reply, settle the two handshake sides.
pub struct Negotiation {
    pub state: NegotiationState,
}

impl Negotiation {
    /// A fresh attempt, its upgrade request on the way to the backend.
    pub fn new() -> (n: Negotiation)
        ensures
            n.state is AwaitingBackendReply,
    {
        Negotiation { state: NegotiationState::AwaitingBackendReply }
    }

    /// Advance by one event.
    pub fn on_event(&mut self, ev: NegotiationEvent)
        ensures
            final(self).state == spec_negotiation_step(old(self).state, ev),
    {
        let s = self.state;
        self.state = match s {
            NegotiationState::AwaitingBackendReply => match ev {
                NegotiationEvent::BackendReplied { status } => {
                    if status == SWITCHING_PROTOCOLS {
                        NegotiationState::AwaitingHandshake {
                            handshake: DualHandshake {
                                client: SideState::Pending,
                                backend: SideState::Pending,
                            },
                        }
                    } else {
                        NegotiationState::Declined { status }
                    }
                },
                _ => s,
            },
            NegotiationState::AwaitingHandshake { handshake } => match ev {
                NegotiationEvent::Handshake { event } => {
                    let mut h = handshake;
                    h.on_event(event);
                    match h.outcome() {
                        HandshakeOutcome::StartTunnel => NegotiationState::TunnelStarted,
                        HandshakeOutcome::Abort => NegotiationState::Failed,
                        HandshakeOutcome::Wait => NegotiationState::AwaitingHandshake {
                            handshake: h,
                        },
                    }
                },
                _ => s,
            },
            _ => s,
        };
    }
}

/// A declined upgrade is final: once the backend has answered with anything
/// but Switching Protocols, no later event moves the attempt anywhere —
/// in particular, no tunnel is ever created for it.
pub proof fn lemma_declined_is_final(status: u16, evs: Seq<NegotiationEvent>)
    requires
        status != SWITCHING_PROTOCOLS,
    ensures
        (spec_negotiation_run(NegotiationState::Declined { status }, evs)
            == NegotiationState::Declined { status }),
    decreases evs.len(),
{
    if evs.len() > 0 {
        lemma_declined_is_final(status, evs.drop_first());
    }
}

/// A failed handshake is final: no later event leaves the `Failed` state.
pub proof fn lemma_failed_is_final(evs: Seq<NegotiationEvent>)
    ensures
        (spec_negotiation_run(NegotiationState::Failed, evs) == NegotiationState::Failed),
    decreases evs.len(),
{
    if evs.len() > 0 {
        lemma_failed_is_final(evs.drop_first());
    }
}

/// Once either handshake side has failed, no sequence of further events
/// reaches `TunnelStarted`: the attempt can only fail or keep waiting, so no
/// data ever crosses for that connection.
pub proof fn lemma_no_tunnel_after_side_failure(h: DualHandshake, evs: Seq<NegotiationEvent>)
    requires
        h.client is Failed || h.backend is Failed,
    ensures
        !(spec_negotiation_run(NegotiationState::AwaitingHandshake { handshake: h }, evs)
            is TunnelStarted),
    decreases evs.len(),
{
    if evs.len() > 0 {
        let s1 = spec_negotiation_step(
            NegotiationState::AwaitingHandshake { handshake: h },
            evs[0],
        );
        match evs[0] {
            NegotiationEvent::Handshake { event } => {
                let h1 = spec_handshake_step(h, event);
                assert(h1.client is Failed || h1.backend is Failed);
                assert(spec_handshake_outcome(h1) is Abort);
                lemma_failed_is_final(evs.drop_first());
            },
            _ => {
                lemma_no_tunnel_after_side_failure(h, evs.drop_first());
            },
        }
    }
}

/// A tunnel needs the backend's acceptance: whenever a whole negotiation,
/// started fresh, ends with a tunnel, the backend replied with Switching
/// Protocols somewhere along the way.
pub proof fn lemma_tunnel_needs_switching_protocols(evs: Seq<NegotiationEvent>)
    ensures
        (spec_negotiation_run(NegotiationState::AwaitingBackendReply, evs) is TunnelStarted)
            ==> exists|i: int| 0 <= i < evs.len() && #[trigger] is_accept_reply(evs[i]),
    decreases evs.len(),
{
    if evs.len() > 0 {
        let s1 = spec_negotiation_step(NegotiationState::AwaitingBackendReply, evs[0]);
        match evs[0] {
            NegotiationEvent::BackendReplied { status } => {
                if status == SWITCHING_PROTOCOLS {
                    if spec_negotiation_run(s1, evs.drop_first()) is TunnelStarted {
                        assert(is_accept_reply(evs[0]));
                    }
                } else {
                    lemma_declined_is_final(status, evs.drop_first());
                }
            },
            NegotiationEvent::Handshake { event } => {
                lemma_tunnel_needs_switching_protocols(evs.drop_first());
                if spec_negotiation_run(s1, evs.drop_first()) is TunnelStarted {
                    let j = choose|j: int|
                        0 <= j < evs.drop_first().len() && #[trigger] is_accept_reply(
                            evs.drop_first()[j],
                        );
                    assert(evs.drop_first()[j] == evs[j + 1]);
                    assert(is_accept_reply(evs[j + 1]));
                }
            },
        }
    }
}

/// Settle both sides of a finished join at once: the tunnel starts exactly
/// when both sides succeeded, and any failure aborts with no tunnel.
pub fn handshake_outcome(client_ok: bool, backend_ok: bool) -> (o: HandshakeOutcome)
    ensures
        o is StartTunnel <==> (client_ok && backend_ok),
        o is Abort <==> !(client_ok && backend_ok),
{
    let mut h = DualHandshake::new();
    h.on_event(
        if client_ok {
            HandshakeEvent::ClientResolved
        } else {
            HandshakeEvent::ClientFailed
        },
    );
    h.on_event(
        if backend_ok {
            HandshakeEvent::BackendResolved
        } else {
            HandshakeEvent::BackendFailed
        },
    );
    h.outcome()
}

} // verus!
