//! The bidirectional relay: once a tunnel exists, each direction copies the
//! bytes it reads to the opposite stream, unmodified and in order, until a
//! zero-length read (clean end-of-stream) or an I/O error; the tunnel as a
//! whole ends as soon as either direction stops — a race, not a coordinated
//! shutdown.
use vstd::prelude::*;

verus! {

/// One completed step of one relay direction, as the relay sees it: a chunk
/// of bytes that was read and then written and flushed to the opposite
/// stream, a read error, or a write/flush error. A zero-length chunk is a
/// clean end-of-stream.
pub enum RelayEvent {
    Data(Vec<u8>),
    ReadFailed,
    WriteFailed,
}

/// The bytes one relay direction forwards over a trace of I/O events: the
/// concatenation, in order, of the chunks read before the first terminator
/// (zero-length read, read error, or write error); nothing after the
/// terminator crosses.
pub open spec fn relayed_bytes(t: Seq<RelayEvent>) -> Seq<u8>
    decreases t.len(),
{
    if t.len() == 0 {
        Seq::<u8>::empty()
    } else {
        match t[0] {
            RelayEvent::Data(d) => if d@.len() == 0 {
                Seq::<u8>::empty()
            } else {
                d@ + relayed_bytes(t.drop_first())
            },
            RelayEvent::ReadFailed => Seq::<u8>::empty(),
            RelayEvent::WriteFailed => Seq::<u8>::empty(),
        }
    }
}

/// The per-read decision of a relay direction: keep going exactly when the
/// read produced bytes; a zero-length read is a clean end-of-stream and
/// stops this direction.
pub fn continue_after_read(n_read: usize) -> (cont: bool)
    ensures
        cont <==> n_read > 0,
{
    n_read > 0
}

/// One relay direction driven over a finite trace of I/O events: the bytes
/// that reach the opposite side are exactly the chunks read before the
/// first terminator, unmodified, complete, and in order.
pub fn run_relay_direction(trace: &Vec<RelayEvent>) -> (out: Vec<u8>)
    ensures
        out@ == relayed_bytes(trace@),
{
    let mut out: Vec<u8> = Vec::new();
    let n = trace.len();
    let mut i: usize = 0;
    proof {
        assert(trace@.skip(0) =~= trace@);
    }
    while i < n
        invariant
            n == trace@.len(),
            i <= n,
            relayed_bytes(trace@) == out@ + relayed_bytes(trace@.skip(i as int)),
        decreases n - i,
    {
        proof {
            assert(trace@.skip(i as int)[0] == trace@[i as int]);
            assert(trace@.skip(i as int).drop_first() =~= trace@.skip(i as int + 1));
        }
        match &trace[i] {
            RelayEvent::Data(d) => {
                let dlen = d.len();
                if dlen == 0 {
                    proof {
                        assert(relayed_bytes(trace@.skip(i as int)) =~= Seq::<u8>::empty());
                        assert(out@ + Seq::<u8>::empty() =~= out@);
                    }
                    return out;
                }
                let ghost out0 = out@;
                let mut j: usize = 0;
                while j < dlen
                    invariant
                        dlen == d@.len(),
                        j <= dlen,
                        out@ == out0 + d@.subrange(0, j as int),
                    decreases dlen - j,
                {
                    proof {
                        assert(d@.subrange(0, j as int).push(d@[j as int]) =~= d@.subrange(
                            0,
                            j as int + 1,
                        ));
                    }
                    out.push(d[j]);
                    j += 1;
                }
                proof {
                    assert(d@.subrange(0, dlen as int) =~= d@);
                    assert(relayed_bytes(trace@.skip(i as int)) == d@ + relayed_bytes(
                        trace@.skip(i as int + 1),
                    ));
                    assert(out0 + (d@ + relayed_bytes(trace@.skip(i as int + 1))) =~= (out0 + d@)
                        + relayed_bytes(trace@.skip(i as int + 1)));
                }
            },
            RelayEvent::ReadFailed => {
                proof {
                    assert(relayed_bytes(trace@.skip(i as int)) =~= Seq::<u8>::empty());
                    assert(out@ + Seq::<u8>::empty() =~= out@);
                }
                return out;
            },
            RelayEvent::WriteFailed => {
                proof {
                    assert(relayed_bytes(trace@.skip(i as int)) =~= Seq::<u8>::empty());
                    assert(out@ + Seq::<u8>::empty() =~= out@);
                }
                return out;
            },
        }
        i += 1;
    }
    proof {
        assert(trace@.skip(n as int) =~= Seq::<RelayEvent>::empty());
        assert(out@ + Seq::<u8>::empty() =~= out@);
    }
    out
}

/// The tunnel's two directions, each flagged once it has stopped.
pub struct Tunnel {
    pub client_to_backend_done: bool,
    pub backend_to_client_done: bool,
}

/// The tunnel's termination policy is a race: the tunnel is finished exactly
/// when either direction has stopped, whatever the other direction is doing;
/// the still-running direction is abandoned, not drained.
pub open spec fn spec_tunnel_finished(t: Tunnel) -> bool {
    t.client_to_backend_done || t.backend_to_client_done
}

impl Tunnel {
    /// A fresh tunnel with both directions running.
    pub fn new() -> (t: Tunnel)
        ensures
            !t.client_to_backend_done,
            !t.backend_to_client_done,
            !spec_tunnel_finished(t),
    {
        Tunnel { client_to_backend_done: false, backend_to_client_done: false }
    }

    /// Record that one direction has stopped; the tunnel is finished from
    /// that moment, whatever the other direction was doing.
    pub fn direction_ended(&mut self, client_to_backend: bool)
        ensures
            final(self).client_to_backend_done == (old(self).client_to_backend_done
                || client_to_backend),
            final(self).backend_to_client_done == (old(self).backend_to_client_done
                || !client_to_backend),
            spec_tunnel_finished(*final(self)),
    {
        if client_to_backend {
            self.client_to_backend_done = true;
        } else {
            self.backend_to_client_done = true;
        }
    }

    /// Whether the tunnel as a whole is over.
    pub fn finished(&self) -> (f: bool)
        ensures
            f == spec_tunnel_finished(*self),
    {
        self.client_to_backend_done || self.backend_to_client_done
    }
}

/// The termination law of the tunnel: the end of either single direction,
/// for any reason, finishes the tunnel as a whole — it never waits for the
/// other direction to end as well.
pub proof fn lemma_either_direction_ends_tunnel(t: Tunnel)
    ensures
        t.client_to_backend_done ==> spec_tunnel_finished(t),
        t.backend_to_client_done ==> spec_tunnel_finished(t),
{
}

} // verus!
