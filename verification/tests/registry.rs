use peerchain::peer::{Peer, PeerManager};
use peerchain::models::Blockchain;

fn has(peers: &[String], addr: &str) -> bool {
    peers.iter().any(|p| p == addr)
}

#[test]
fn register_is_idempotent() {
    let mut registry = PeerManager::new();
    registry.register_peer("10.0.0.1:8080".to_string());
    registry.register_peer("10.0.0.1:8080".to_string());
    let peers = registry.get_peers();
    assert_eq!(peers.len(), 1);
    assert!(has(&peers, "10.0.0.1:8080"));
}

#[test]
fn remove_of_absent_address_is_noop() {
    let mut registry = PeerManager::new();
    registry.register_peer("10.0.0.1:8080".to_string());
    registry.remove_peer(&"10.0.0.2:8080".to_string());
    let peers = registry.get_peers();
    assert_eq!(peers.len(), 1);
    assert!(has(&peers, "10.0.0.1:8080"));
}

#[test]
fn remove_deletes_exactly_the_given_address() {
    let mut registry = PeerManager::new();
    registry.register_peer("10.0.0.1:8080".to_string());
    registry.register_peer("10.0.0.2:8080".to_string());
    registry.remove_peer(&"10.0.0.1:8080".to_string());
    let peers = registry.get_peers();
    assert_eq!(peers.len(), 1);
    assert!(!has(&peers, "10.0.0.1:8080"));
    assert!(has(&peers, "10.0.0.2:8080"));
}

#[test]
fn remove_is_idempotent() {
    let mut registry = PeerManager::new();
    registry.register_peer("10.0.0.1:8080".to_string());
    registry.remove_peer(&"10.0.0.1:8080".to_string());
    registry.remove_peer(&"10.0.0.1:8080".to_string());
    assert!(registry.get_peers().is_empty());
}

#[test]
fn snapshot_is_a_point_in_time_copy() {
    let mut registry = PeerManager::new();
    registry.register_peer("10.0.0.1:8080".to_string());
    let before = registry.get_peers();
    registry.register_peer("10.0.0.2:8080".to_string());
    assert_eq!(before.len(), 1);
    assert_eq!(registry.get_peers().len(), 2);
}

#[test]
fn registry_stays_well_formed() {
    let mut registry = PeerManager::new();
    assert!(registry.is_well_formed());
    registry.register_peer("10.0.0.1:8080".to_string());
    registry.register_peer("10.0.0.1:8080".to_string());
    registry.register_peer("10.0.0.2:8080".to_string());
    registry.remove_peer(&"10.0.0.1:8080".to_string());
    assert!(registry.is_well_formed());
}

#[test]
fn well_formedness_check_sees_duplicates() {
    let registry = PeerManager {
        peers: vec!["10.0.0.1:8080".to_string(), "10.0.0.1:8080".to_string()],
    };
    assert!(!registry.is_well_formed());
}

#[test]
fn peer_exposes_an_independent_chain_copy() {
    let node = Peer::new("127.0.0.1:8081".to_string(), Blockchain::new());
    assert_eq!(node.address, "127.0.0.1:8081");
    let chain = node.get_blockchain();
    assert_eq!(chain.chain.len(), node.blockchain.chain.len());
    assert_eq!(chain.chain[0].hash, node.blockchain.chain[0].hash);
}
