//! Errors of the transport layer.
use vstd::prelude::*;

verus! {

/// What can go wrong between two peers.
#[derive(Debug, Clone)]
pub enum NetworkError {
    /// A peer or server cannot be reached, or the link is not up.
    ConnectionError(String),
    /// The connection was closed while a reply was outstanding.
    ConnectionClosed(String),
    /// A data channel refused, closed or broke a message.
    DataChannelError(String),
    /// A local channel has no other end any more.
    ChannelClosed(String),
    /// The operation does not exist on this kind of lane.
    InvalidOperation(String),
    /// The lane or payload type is not offered.
    NotImplemented(String),
    /// Writing to a socket failed.
    SendError(String),
    /// The peer-to-peer engine reported an error.
    WebRtcError(String),
    /// A handshake was refused.
    AuthenticationError(String),
    /// The credential is no longer accepted.
    CredentialExpired(String),
    /// The signaling server could not name candidates.
    ServiceDiscoveryError(String),
}

/// Result of a transport operation.
pub type NetworkResult<T> = Result<T, NetworkError>;

}
