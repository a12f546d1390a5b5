//! Connections between peers.
pub mod webrtc;
pub mod websocket;
