//! Chain synchronization by gossip.
//!
//! For each known peer the node pulls a chain snapshot and applies the
//! fork-choice rule. The network exchange and the decoding of the snapshot
//! happen outside this library (the wire codec is an external collaborator);
//! what came of them is handed in as a `GossipResponse`, and the decisions
//! made on it are verified here.

use vstd::prelude::*;
use crate::models::{Blockchain, BlockView};
use crate::peer::PeerManager;

verus! {

/// What one gossip exchange with one peer yielded.
pub enum GossipResponse {
    /// The connection could not be opened: a transient failure, no evidence
    /// of misbehavior.
    Unreachable,
    /// The peer's payload failed to decode as a chain snapshot: the peer is
    /// misbehaving.
    Malformed,
    /// The peer's payload decoded as a chain snapshot. The snapshot is taken
    /// as it came: the fork-choice rule performs no validation of it.
    Snapshot(Blockchain),
}

/// The fork-choice rule: the strictly longer of the two chains, the local one
/// when the lengths tie.
pub open spec fn fork_choice_rule(local: Seq<BlockView>, remote: Seq<BlockView>) -> Seq<
    BlockView,
> {
    if remote.len() > local.len() {
        remote
    } else {
        local
    }
}

/// Apply the fork-choice rule: adopt the remote chain wholesale if and only
/// if it is strictly longer than the local one; otherwise discard it.
/// Deliberately no validation of the remote chain is performed before
/// acceptance; a stricter, validating variant would substitute for this one
/// function.
pub fn fork_choice(local: &mut Blockchain, remote: Blockchain)
    ensures
        final(local)@ == fork_choice_rule(old(local)@, remote@),
{
    if remote.chain.len() > local.chain.len() {
        *local = remote;
    }
}

/// Apply the outcome of one gossip exchange with `peer`:
/// - unreachable: skip the peer this round, removing nothing;
/// - malformed payload: evict the peer from the registry;
/// - decoded snapshot: run fork-choice against the local chain.
pub fn sync_with_peer(
    local: &mut Blockchain,
    registry: &mut PeerManager,
    peer: &String,
    response: GossipResponse,
)
    requires
        old(registry).wf(),
    ensures
        final(registry).wf(),
        match response {
            GossipResponse::Unreachable => final(local)@ == old(local)@ && final(registry)@
                == old(registry)@,
            GossipResponse::Malformed => final(local)@ == old(local)@ && final(registry)@
                == old(registry)@.remove(peer@),
            GossipResponse::Snapshot(remote) => final(registry)@ == old(registry)@
                && final(local)@ == fork_choice_rule(old(local)@, remote@),
        },
{
    match response {
        GossipResponse::Unreachable => {},
        GossipResponse::Malformed => {
            registry.remove_peer(peer);
        },
        GossipResponse::Snapshot(remote) => {
            fork_choice(local, remote);
        },
    }
}

/// Fork-choice monotonicity law: a strictly longer remote chain is adopted
/// exactly; any other remote chain leaves the local chain exactly as it was.
/// Either way the local chain never shrinks.
pub proof fn lemma_fork_choice_monotonic(local: Seq<BlockView>, remote: Seq<BlockView>)
    ensures
        remote.len() > local.len() ==> fork_choice_rule(local, remote) == remote,
        remote.len() <= local.len() ==> fork_choice_rule(local, remote) == local,
        fork_choice_rule(local, remote).len() >= local.len(),
{
}

} // verus!
