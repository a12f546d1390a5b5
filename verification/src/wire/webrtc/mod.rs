//! Peer-to-peer connections and the signaling that sets them up.
pub mod connection;
pub mod envelope;
pub mod reconnect;
pub mod requests;
pub mod signaling;
