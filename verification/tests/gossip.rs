use peerchain::gossip::{fork_choice, sync_with_peer, GossipResponse};
use peerchain::models::{Blockchain, Transaction};
use peerchain::peer::PeerManager;

fn tx(sender: &str, recipient: &str, amount: u32) -> Transaction {
    Transaction::new(sender.to_string(), recipient.to_string(), amount)
}

fn chains_equal(a: &Blockchain, b: &Blockchain) -> bool {
    a.chain.len() == b.chain.len()
        && a.chain.iter().zip(b.chain.iter()).all(|(x, y)| {
            x.timestamp == y.timestamp && x.previous_hash == y.previous_hash && x.hash == y.hash
                && x.transactions.len() == y.transactions.len()
                && x.transactions.iter().zip(y.transactions.iter()).all(|(s, t)| {
                    s.sender == t.sender && s.recipient == t.recipient && s.amount == t.amount
                })
        })
}

#[test]
fn fork_choice_adopts_strictly_longer_chain() {
    let mut local = Blockchain::new();
    let mut remote = Blockchain::new();
    remote.add_block(vec![tx("Alice", "Bob", 50)]);
    fork_choice(&mut local, remote.duplicate());
    assert!(chains_equal(&local, &remote));
}

#[test]
fn fork_choice_keeps_local_chain_on_equal_length() {
    let mut local = Blockchain::new();
    local.add_block(vec![tx("Alice", "Bob", 50)]);
    let local_before = local.duplicate();
    let mut remote = Blockchain::new();
    remote.add_block(vec![tx("Mallory", "Eve", 1)]);
    fork_choice(&mut local, remote);
    assert!(chains_equal(&local, &local_before));
}

#[test]
fn fork_choice_keeps_local_chain_on_shorter_remote() {
    let mut local = Blockchain::new();
    local.add_block(vec![tx("Alice", "Bob", 50)]);
    let local_before = local.duplicate();
    let remote = Blockchain::new();
    fork_choice(&mut local, remote);
    assert!(chains_equal(&local, &local_before));
}

#[test]
fn malformed_response_evicts_the_peer() {
    let mut registry = PeerManager::new();
    registry.register_peer("10.0.0.1:8080".to_string());
    registry.register_peer("10.0.0.2:8080".to_string());
    let mut local = Blockchain::new();
    let local_before = local.duplicate();
    sync_with_peer(
        &mut local,
        &mut registry,
        &"10.0.0.1:8080".to_string(),
        GossipResponse::Malformed,
    );
    let peers = registry.get_peers();
    assert!(!peers.iter().any(|p| p == "10.0.0.1:8080"));
    assert!(peers.iter().any(|p| p == "10.0.0.2:8080"));
    assert!(chains_equal(&local, &local_before));
}

#[test]
fn unreachable_peer_is_skipped_not_evicted() {
    let mut registry = PeerManager::new();
    registry.register_peer("10.0.0.1:8080".to_string());
    let mut local = Blockchain::new();
    let local_before = local.duplicate();
    sync_with_peer(
        &mut local,
        &mut registry,
        &"10.0.0.1:8080".to_string(),
        GossipResponse::Unreachable,
    );
    assert!(registry.get_peers().iter().any(|p| p == "10.0.0.1:8080"));
    assert!(chains_equal(&local, &local_before));
}

#[test]
fn snapshot_response_runs_fork_choice_without_eviction() {
    let mut registry = PeerManager::new();
    registry.register_peer("10.0.0.1:8080".to_string());
    let mut local = Blockchain::new();
    let mut remote = Blockchain::new();
    remote.add_block(vec![tx("Alice", "Bob", 50)]);
    sync_with_peer(
        &mut local,
        &mut registry,
        &"10.0.0.1:8080".to_string(),
        GossipResponse::Snapshot(remote.duplicate()),
    );
    assert!(chains_equal(&local, &remote));
    assert!(registry.get_peers().iter().any(|p| p == "10.0.0.1:8080"));
}

#[test]
fn one_gossip_round_replicates_the_longer_chain() {
    // Node A holds nothing beyond genesis; node B holds genesis plus one
    // block carrying a single transfer. A polls B once.
    let mut node_a = Blockchain::new();
    let mut node_b = Blockchain::new();
    node_b.add_block(vec![tx("Alice", "Bob", 50)]);

    let mut registry_a = PeerManager::new();
    registry_a.register_peer("node-b:8080".to_string());

    sync_with_peer(
        &mut node_a,
        &mut registry_a,
        &"node-b:8080".to_string(),
        GossipResponse::Snapshot(node_b.duplicate()),
    );

    assert_eq!(node_a.chain.len(), 2);
    assert!(chains_equal(&node_a, &node_b));
    assert_eq!(node_a.chain[1].transactions.len(), 1);
    assert_eq!(node_a.chain[1].transactions[0].sender, "Alice");
    assert_eq!(node_a.chain[1].transactions[0].recipient, "Bob");
    assert_eq!(node_a.chain[1].transactions[0].amount, 50);
}
