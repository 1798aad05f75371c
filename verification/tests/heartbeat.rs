use peerchain::heartbeat::{is_pong, ping_bytes, pong_bytes, send_heartbeat, HeartbeatResponse};
use peerchain::peer::PeerManager;

fn registry_with(addr: &str) -> PeerManager {
    let mut registry = PeerManager::new();
    registry.register_peer(addr.to_string());
    registry
}

fn knows(registry: &PeerManager, addr: &str) -> bool {
    registry.get_peers().iter().any(|p| p == addr)
}

#[test]
fn probe_and_acknowledgment_tokens() {
    assert_eq!(ping_bytes(), b"PING".to_vec());
    assert_eq!(pong_bytes(), b"PONG".to_vec());
    assert!(is_pong(&b"PONG".to_vec()));
    assert!(!is_pong(&b"PING".to_vec()));
    assert!(!is_pong(&b"PON".to_vec()));
    assert!(!is_pong(&b"PONGG".to_vec()));
}

#[test]
fn exact_acknowledgment_keeps_the_peer() {
    let mut registry = registry_with("10.0.0.1:8080");
    send_heartbeat(
        &mut registry,
        &"10.0.0.1:8080".to_string(),
        HeartbeatResponse::Reply(b"PONG".to_vec()),
    );
    assert!(knows(&registry, "10.0.0.1:8080"));
}

#[test]
fn any_other_reply_evicts_the_peer() {
    let mut registry = registry_with("10.0.0.1:8080");
    send_heartbeat(
        &mut registry,
        &"10.0.0.1:8080".to_string(),
        HeartbeatResponse::Reply(b"PANG".to_vec()),
    );
    assert!(!knows(&registry, "10.0.0.1:8080"));
}

#[test]
fn unreachable_peer_is_evicted() {
    let mut registry = registry_with("10.0.0.1:8080");
    send_heartbeat(
        &mut registry,
        &"10.0.0.1:8080".to_string(),
        HeartbeatResponse::Unreachable,
    );
    assert!(!knows(&registry, "10.0.0.1:8080"));
}

#[test]
fn write_failure_evicts_the_peer() {
    let mut registry = registry_with("10.0.0.1:8080");
    send_heartbeat(
        &mut registry,
        &"10.0.0.1:8080".to_string(),
        HeartbeatResponse::WriteFailed,
    );
    assert!(!knows(&registry, "10.0.0.1:8080"));
}

#[test]
fn read_failure_evicts_the_peer() {
    let mut registry = registry_with("10.0.0.1:8080");
    send_heartbeat(
        &mut registry,
        &"10.0.0.1:8080".to_string(),
        HeartbeatResponse::ReadFailed,
    );
    assert!(!knows(&registry, "10.0.0.1:8080"));
}

#[test]
fn eviction_touches_only_the_probed_peer() {
    let mut registry = registry_with("10.0.0.1:8080");
    registry.register_peer("10.0.0.2:8080".to_string());
    send_heartbeat(
        &mut registry,
        &"10.0.0.1:8080".to_string(),
        HeartbeatResponse::Reply(b"XXXX".to_vec()),
    );
    assert!(!knows(&registry, "10.0.0.1:8080"));
    assert!(knows(&registry, "10.0.0.2:8080"));
}
