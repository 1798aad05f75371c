//! A minimal peer-to-peer ledger replication library: an append-only chain of
//! hash-linked blocks, a registry of known peers, and the decision rules of
//! the gossip, heartbeat and connection-handling protocols.

pub mod codec;
pub mod digest;
pub mod gossip;
pub mod heartbeat;
pub mod models;
pub mod network;
pub mod peer;
