//! Inbound dispatch and outbound announcement targets.
//!
//! The connection server reads a fixed-size ASCII tag off each accepted
//! connection and dispatches on it. Reading and writing sockets, and decoding
//! a transaction payload, happen outside this library; the classification of
//! the tag and every decision taken on it are verified here.

use vstd::prelude::*;
use crate::heartbeat::ping_token;
use crate::models::{Blockchain, Transaction};
use crate::peer::PeerManager;

verus! {

/// The connect-announce tag, as bytes: `CONNECTX`.
pub open spec fn connect_token() -> Seq<u8> {
    seq![67u8, 79u8, 78u8, 78u8, 69u8, 67u8, 84u8, 88u8]
}

/// The transaction-submit tag, as bytes: `TRANSACT`.
pub open spec fn transact_token() -> Seq<u8> {
    seq![84u8, 82u8, 65u8, 78u8, 83u8, 65u8, 67u8, 84u8]
}

/// The registration-nudge tag, as bytes: `ANNOUNCE`.
pub open spec fn announce_token() -> Seq<u8> {
    seq![65u8, 78u8, 78u8, 79u8, 85u8, 78u8, 67u8, 69u8]
}

/// The registration-nudge token to send to a peer.
pub fn announce_bytes() -> (r: Vec<u8>)
    ensures
        r@ == announce_token(),
{
    let mut r: Vec<u8> = Vec::new();
    r.push(65);
    r.push(78);
    r.push(78);
    r.push(79);
    r.push(85);
    r.push(78);
    r.push(67);
    r.push(69);
    assert(r@ =~= announce_token());
    r
}

/// The kind of an inbound message, read off the first bytes of the stream.
pub enum MessageTag {
    /// A liveness probe, owed the acknowledgment token.
    Ping,
    /// A registration nudge; the sender becomes a known peer.
    Announce,
    /// A connect announcement; the sender becomes a known peer.
    ConnectAnnounce,
    /// A transaction submission; the rest of the stream is its payload.
    TransactionSubmit,
    /// Anything else is taken as a request for the chain snapshot.
    ChainRequest,
}

fn bytes_eq(a: &Vec<u8>, b0: u8, b1: u8, b2: u8, b3: u8, b4: u8, b5: u8, b6: u8, b7: u8) -> (r:
    bool)
    ensures
        r == (a@ == seq![b0, b1, b2, b3, b4, b5, b6, b7]),
{
    if a.len() == 8 && a[0] == b0 && a[1] == b1 && a[2] == b2 && a[3] == b3 && a[4] == b4 && a[5]
        == b5 && a[6] == b6 && a[7] == b7 {
        assert(a@ =~= seq![b0, b1, b2, b3, b4, b5, b6, b7]);
        true
    } else {
        assert(a@ != seq![b0, b1, b2, b3, b4, b5, b6, b7]);
        false
    }
}

/// Classify the tag bytes read off an inbound stream. A liveness probe is
/// exactly the four probe bytes; the three eight-byte tags match exactly;
/// everything else is a chain request.
pub fn classify_tag(tag: &Vec<u8>) -> (r: MessageTag)
    ensures
        r == MessageTag::Ping <==> tag@ == ping_token(),
        r == MessageTag::Announce <==> tag@ == announce_token(),
        r == MessageTag::ConnectAnnounce <==> tag@ == connect_token(),
        r == MessageTag::TransactionSubmit <==> tag@ == transact_token(),
        r == MessageTag::ChainRequest <==> (tag@ != ping_token() && tag@ != announce_token()
            && tag@ != connect_token() && tag@ != transact_token()),
{
    if tag.len() == 4 && tag[0] == 80 && tag[1] == 73 && tag[2] == 78 && tag[3] == 71 {
        assert(tag@ =~= ping_token());
        MessageTag::Ping
    } else if bytes_eq(tag, 65, 78, 78, 79, 85, 78, 67, 69) {
        assert(tag@ =~= announce_token());
        MessageTag::Announce
    } else if bytes_eq(tag, 67, 79, 78, 78, 69, 67, 84, 88) {
        assert(tag@ =~= connect_token());
        MessageTag::ConnectAnnounce
    } else if bytes_eq(tag, 84, 82, 65, 78, 83, 65, 67, 84) {
        assert(tag@ =~= transact_token());
        MessageTag::TransactionSubmit
    } else {
        assert(tag@ != ping_token());
        MessageTag::ChainRequest
    }
}

/// What the server writes back on one connection.
pub enum ServerReply {
    /// The acknowledgment token.
    Pong,
    /// The current chain, encoded as a snapshot.
    ChainSnapshot,
    /// Nothing.
    NoReply,
}

/// Dispatch one inbound message, already classified.
///
/// - A liveness probe is owed the acknowledgment token and changes nothing.
/// - A registration nudge or a connect announcement registers the sender.
/// - A transaction submission appends a single-transaction block when its
///   payload decoded, and is dropped silently when it did not (`transaction`
///   is the decoder's result; a malformed transaction is a data-quality
///   issue, not a trust issue, so no peer is evicted here).
/// - Anything else is served the chain snapshot, and the sender is
///   registered as a peer.
pub fn handle_inbound(
    ledger: &mut Blockchain,
    registry: &mut PeerManager,
    remote: &String,
    tag: MessageTag,
    transaction: Option<Transaction>,
) -> (r: ServerReply)
    requires
        old(registry).wf(),
        old(ledger)@.len() > 0,
    ensures
        final(registry).wf(),
        final(ledger)@.len() > 0,
        match tag {
            MessageTag::Ping => r == ServerReply::Pong && final(ledger)@ == old(ledger)@
                && final(registry)@ == old(registry)@,
            MessageTag::Announce | MessageTag::ConnectAnnounce => r == ServerReply::NoReply
                && final(ledger)@ == old(ledger)@ && final(registry)@ == old(registry)@.insert(
                remote@,
            ),
            MessageTag::TransactionSubmit => r == ServerReply::NoReply && final(registry)@
                == old(registry)@ && match transaction {
                Some(t) => final(ledger)@.len() == old(ledger)@.len() + 1 && final(ledger)@.take(
                    old(ledger)@.len() as int,
                ) == old(ledger)@ && final(ledger)@.last().previous_hash == old(
                    ledger,
                )@.last().hash && final(ledger)@.last().transactions =~= seq![t@]
                    && final(ledger)@.last().wf(),
                None => final(ledger)@ == old(ledger)@,
            },
            MessageTag::ChainRequest => r == ServerReply::ChainSnapshot && final(ledger)@ == old(
                ledger,
            )@ && final(registry)@ == old(registry)@.insert(remote@),
        },
{
    match tag {
        MessageTag::Ping => ServerReply::Pong,
        MessageTag::Announce => {
            registry.register_peer(remote.clone());
            ServerReply::NoReply
        },
        MessageTag::ConnectAnnounce => {
            registry.register_peer(remote.clone());
            ServerReply::NoReply
        },
        MessageTag::TransactionSubmit => {
            match transaction {
                Some(t) => {
                    let mut txs: Vec<Transaction> = Vec::new();
                    let ghost tv = t@;
                    txs.push(t);
                    assert(crate::codec::txs_view(txs@) =~= seq![tv]);
                    ledger.add_block(txs);
                },
                None => {},
            }
            ServerReply::NoReply
        },
        MessageTag::ChainRequest => {
            registry.register_peer(remote.clone());
            ServerReply::ChainSnapshot
        },
    }
}

/// The address an outbound announcement or gossip dial targets for a known
/// peer: the peer string with the fixed, out-of-band-agreed gossip port
/// appended.
pub fn announce_target(peer: &String) -> (r: String)
    ensures
        r@ == peer@ + ":8080"@,
{
    let mut r = peer.clone();
    r.append(":8080");
    r
}

} // verus!
