//! Liveness probing.
//!
//! The node probes each known peer with a fixed token and expects the exact
//! acknowledgment token back. The socket work happens outside this library;
//! what came of it is handed in as a `HeartbeatResponse`. A heartbeat's
//! purpose is liveness, so any failure along the way — connecting, writing,
//! reading, or a wrong reply — evicts the peer.

use vstd::prelude::*;
use crate::peer::PeerManager;

verus! {

/// The liveness-probe token, as bytes: `PING`.
pub open spec fn ping_token() -> Seq<u8> {
    seq![80u8, 73u8, 78u8, 71u8]
}

/// The liveness-acknowledgment token, as bytes: `PONG`.
pub open spec fn pong_token() -> Seq<u8> {
    seq![80u8, 79u8, 78u8, 71u8]
}

/// The probe token to send to a peer.
pub fn ping_bytes() -> (r: Vec<u8>)
    ensures
        r@ == ping_token(),
{
    let mut r: Vec<u8> = Vec::new();
    r.push(80);
    r.push(73);
    r.push(78);
    r.push(71);
    assert(r@ =~= ping_token());
    r
}

/// The acknowledgment token to reply with.
pub fn pong_bytes() -> (r: Vec<u8>)
    ensures
        r@ == pong_token(),
{
    let mut r: Vec<u8> = Vec::new();
    r.push(80);
    r.push(79);
    r.push(78);
    r.push(71);
    assert(r@ =~= pong_token());
    r
}

/// Whether `reply` is exactly the acknowledgment token.
pub fn is_pong(reply: &Vec<u8>) -> (r: bool)
    ensures
        r == (reply@ == pong_token()),
{
    if reply.len() == 4 && reply[0] == 80 && reply[1] == 79 && reply[2] == 78 && reply[3] == 71 {
        assert(reply@ =~= pong_token());
        true
    } else {
        assert(reply@ != pong_token());
        false
    }
}

/// What one liveness probe of one peer yielded.
pub enum HeartbeatResponse {
    /// The connection could not be opened at all: for a liveness probe that
    /// is itself proof of unreachability.
    Unreachable,
    /// The probe token could not be written.
    WriteFailed,
    /// No full-size reply could be read.
    ReadFailed,
    /// The bytes the peer replied with.
    Reply(Vec<u8>),
}

/// Settle one heartbeat sent to `peer`. The probe itself — dialing, writing
/// the token, reading the reply — happens outside this library; its outcome
/// comes in as `response`. The peer stays registered if and only if it
/// replied with exactly the acknowledgment token; every other outcome evicts
/// it.
pub fn send_heartbeat(registry: &mut PeerManager, peer: &String, response: HeartbeatResponse)
    requires
        old(registry).wf(),
    ensures
        final(registry).wf(),
        match response {
            HeartbeatResponse::Reply(reply) => if reply@ == pong_token() {
                final(registry)@ == old(registry)@
            } else {
                final(registry)@ == old(registry)@.remove(peer@)
            },
            _ => final(registry)@ == old(registry)@.remove(peer@),
        },
{
    match response {
        HeartbeatResponse::Reply(reply) => {
            if !is_pong(&reply) {
                registry.remove_peer(peer);
            }
        },
        _ => {
            registry.remove_peer(peer);
        },
    }
}

} // verus!
