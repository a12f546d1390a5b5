//! The listener for inbound web socket connections.
//!
//! A peer that connects names itself in two headers of the upgrade request:
//!
//! ```text
//! X-Actr-Source-ID:  its identity, in hexadecimal
//! X-Actr-Credential: its credential, in base64 (optional)
//! ```
use crate::encoding;
use crate::encoding::{base64_octets, hex_decode};
use crate::protocol::ActrError;
use crate::text;
use crate::text::{join, push_decimal};
use vstd::prelude::*;
use vstd::string::StringExecFns;

verus! {

/// How many accepted connections may wait to be let in.
pub const ACCEPT_CHANNEL_CAPACITY: usize = 64;

/// The pause after a failed accept, in milliseconds.
pub const ACCEPT_RETRY_MILLIS: u64 = 100;

/// The header that names the peer.
pub const SOURCE_HEADER: &'static str = "X-Actr-Source-ID";

/// The header that carries the peer's credential.
pub const CREDENTIAL_HEADER: &'static str = "X-Actr-Credential";

/// What happened to the listener.
#[derive(Debug, Clone, Copy, PartialEq, Eq, Structural)]
pub enum AcceptEvent {
    /// The server is to shut down.
    Shutdown,
    /// A connection was accepted.
    Accepted,
    /// Accepting failed.
    Failed,
    /// The pause is over.
    Woke,
}

/// What the listener does next.
#[derive(Debug, Clone, Copy, PartialEq, Eq, Structural)]
pub enum AcceptAction {
    /// Wait for a connection or for the shutdown.
    Accept,
    /// Upgrade the connection in a task of its own, and accept again.
    Handshake,
    /// Pause.
    Sleep { millis: u64 },
    /// End.
    Stop,
}

/// What is known of a peer that connects.
#[derive(Debug)]
pub struct PeerIdentity {
    /// The octets of its identity; none where it did not name itself.
    pub source_id: Vec<u8>,
    /// The octets of its credential.
    pub credential: Option<Vec<u8>>,
}

/// The octets of the identity that a header names; none where there is no header, or
/// none that can be read.
pub open spec fn source_octets(header: Option<Seq<char>>) -> Seq<u8> {
    match header {
        Some(s) => match encoding::hex_octets(s) {
            Some(octets) => octets,
            None => Seq::empty(),
        },
        None => Seq::empty(),
    }
}

/// The octets are the credential that a header carries; `None` where there is no
/// header, or none that can be read.
pub open spec fn is_credential(header: Option<Seq<char>>, octets: Option<Seq<u8>>) -> bool {
    match header {
        Some(s) => match octets {
            Some(octets) => encoding::base64_of(octets) == s,
            None => forall|v: Seq<u8>| #[trigger] encoding::base64_of(v) != s,
        },
        None => octets is None,
    }
}

/// The view of an optional header.
pub open spec fn header_view(h: Option<&str>) -> Option<Seq<char>> {
    match h {
        Some(s) => Some(s@),
        None => None,
    }
}

/// The view of optional octets.
pub open spec fn octets_view(v: Option<Vec<u8>>) -> Option<Seq<u8>> {
    match v {
        Some(v) => Some(v@),
        None => None,
    }
}

/// Reads the two headers of an upgrade request. The request is never refused for them:
/// what cannot be read counts as not sent.
pub fn read_headers(source: Option<&str>, credential: Option<&str>) -> (p: PeerIdentity)
    ensures
        p.source_id@ == source_octets(header_view(source)),
        is_credential(header_view(credential), octets_view(p.credential)),
{
    let source_id: Vec<u8> = match source {
        Some(s) => match hex_decode(s) {
            Ok(octets) => octets,
            Err(_) => Vec::new(),
        },
        None => Vec::new(),
    };
    let credential: Option<Vec<u8>> = match credential {
        Some(s) => match base64_octets(s) {
            Ok(octets) => Some(octets),
            Err(_) => None,
        },
        None => None,
    };
    assert(source_id@ =~= source_octets(header_view(source)));
    PeerIdentity { source_id, credential }
}

/// Takes an event and says what the listener does next. It ends only on shutdown.
pub fn accept_step(event: AcceptEvent) -> (a: AcceptAction)
    ensures
        a == match event {
            AcceptEvent::Shutdown => AcceptAction::Stop,
            AcceptEvent::Accepted => AcceptAction::Handshake,
            AcceptEvent::Failed => AcceptAction::Sleep { millis: ACCEPT_RETRY_MILLIS },
            AcceptEvent::Woke => AcceptAction::Accept,
        },
{
    match event {
        AcceptEvent::Shutdown => AcceptAction::Stop,
        AcceptEvent::Accepted => AcceptAction::Handshake,
        AcceptEvent::Failed => AcceptAction::Sleep { millis: ACCEPT_RETRY_MILLIS },
        AcceptEvent::Woke => AcceptAction::Accept,
    }
}

/// The error for a port that cannot be bound.
pub fn bind_error(port: u16, reason: &str) -> (e: ActrError)
    ensures
        e matches ActrError::Internal(m) && m@ == "WebSocketServer: failed to bind port "@
            + text::decimal(port as nat) + ": "@ + reason@,
{
    let mut m = "WebSocketServer: failed to bind port ".to_owned();
    push_decimal(&mut m, port as u64);
    m.append(": ");
    m.append(reason);
    ActrError::Internal(m)
}

/// The error for a listener whose address cannot be told.
pub fn local_addr_error(reason: &str) -> (e: ActrError)
    ensures
        e matches ActrError::Internal(m) && m@ == "WebSocketServer: failed to get local addr: "@
            + reason@,
{
    ActrError::Internal(join("WebSocketServer: failed to get local addr: ", reason))
}

// ── Laws ──────────────────────────────────────────────────────────────────────

/// Two octet strings with the same base64 form are the same.
pub proof fn base64_is_injective(a: Seq<u8>, b: Seq<u8>)
    requires
        encoding::base64_of(a) == encoding::base64_of(b),
    ensures
        a == b,
    decreases a.len(),
{
    let x = encoding::base64_of(a);
    let y = encoding::base64_of(b);
    if a.len() == 0 || b.len() == 0 {
        assert(a.len() == 0 && b.len() == 0) by {
            if a.len() > 0 {
                assert(x.len() >= 4);
            }
            if b.len() > 0 {
                assert(y.len() >= 4);
            }
        }
        assert(a =~= b);
    } else {
        let ra = a.skip(if a.len() > 3 { 3 } else { a.len() as int });
        let rb = b.skip(if b.len() > 3 { 3 } else { b.len() as int });
        assert(x.skip(4) =~= encoding::base64_of(ra));
        assert(y.skip(4) =~= encoding::base64_of(rb));
        base64_is_injective(ra, rb);
        let a1 = if a.len() > 1 { a[1] as int } else { 0 };
        let a2 = if a.len() > 2 { a[2] as int } else { 0 };
        let b1 = if b.len() > 1 { b[1] as int } else { 0 };
        let b2 = if b.len() > 2 { b[2] as int } else { 0 };
        assert(x[0] == y[0] && x[1] == y[1] && x[2] == y[2] && x[3] == y[3]);
        lemma_digit(a[0] as int / 4, b[0] as int / 4);
        lemma_digit(a[0] as int % 4 * 16 + a1 / 16, b[0] as int % 4 * 16 + b1 / 16);
        assert((a.len() > 1) == (b.len() > 1)) by {
            lemma_not_padding(a1 % 16 * 4 + a2 / 64);
            lemma_not_padding(b1 % 16 * 4 + b2 / 64);
        }
        if a.len() > 1 {
            lemma_digit(a1 % 16 * 4 + a2 / 64, b1 % 16 * 4 + b2 / 64);
        }
        assert((a.len() > 2) == (b.len() > 2)) by {
            lemma_not_padding(a2 % 64);
            lemma_not_padding(b2 % 64);
        }
        if a.len() > 2 {
            lemma_digit(a2 % 64, b2 % 64);
        }
        assert(a[0] == b[0] && a1 == b1 && a2 == b2);
        assert(a.len() == b.len());
        assert forall|i: int| 0 <= i < a.len() implies a[i] == b[i] by {
            if i >= 3 {
                assert(ra[i - 3] == rb[i - 3]);
            }
        }
        assert(a =~= b);
    }
}

proof fn lemma_digit(d: int, e: int)
    requires
        0 <= d < 64,
        0 <= e < 64,
        encoding::base64_digit(d) == encoding::base64_digit(e),
    ensures
        d == e,
{
}

proof fn lemma_not_padding(d: int)
    requires
        0 <= d < 64,
    ensures
        encoding::base64_digit(d) != '=',
{
}

/// A credential that is sent in its header is the one that is read.
pub proof fn a_sent_credential_is_read(sent: Seq<u8>, read: Option<Seq<u8>>)
    requires
        is_credential(Some(encoding::base64_of(sent)), read),
    ensures
        read == Some(sent),
{
    match read {
        Some(octets) => {
            base64_is_injective(octets, sent);
        },
        None => {
            assert(encoding::base64_of(sent) == encoding::base64_of(sent));
        },
    }
}

/// A peer is known by the octets that its header spells; one that sends no header, or none
/// that can be read, is not known. The same holds of its credential. Neither header changes
/// what is read of the other.
pub proof fn headers_are_read_on_their_own(
    source: Option<&str>,
    credential: Option<&str>,
    p: PeerIdentity,
    sent: Seq<u8>,
)
    requires
        call_ensures(read_headers, (source, credential), p),
    ensures
        source is None ==> p.source_id@.len() == 0,
        source matches Some(s) ==> match encoding::hex_octets(s@) {
            Some(octets) => p.source_id@ == octets,
            None => p.source_id@.len() == 0,
        },
        credential is None ==> p.credential is None,
        (credential matches Some(s) && s@ == encoding::base64_of(sent)) ==> (
        p.credential matches Some(octets) && octets@ == sent),
        p.credential matches Some(octets) ==> (credential matches Some(s) && s@
            == encoding::base64_of(octets@)),
{
    if let Some(s) = credential {
        if s@ == encoding::base64_of(sent) {
            a_sent_credential_is_read(sent, octets_view(p.credential));
        }
    }
}

/// The listener ends on shutdown and on nothing else. A connection is upgraded, and a failure
/// to accept is waited out for a tenth of a second.
pub proof fn the_listener_goes_on_until_shutdown(event: AcceptEvent, a: AcceptAction)
    requires
        call_ensures(accept_step, (event,), a),
    ensures
        a is Stop <==> event is Shutdown,
        a is Handshake <==> event is Accepted,
        a is Sleep <==> event is Failed,
        a is Sleep ==> a == (AcceptAction::Sleep { millis: 100 }),
        a is Accept <==> event is Woke,
{
}

/// A listener that cannot be set up says on which port, and why.
pub proof fn a_listener_says_why_it_fails(
    port: u16,
    reason: &str,
    bind: ActrError,
    local: ActrError,
)
    requires
        call_ensures(bind_error, (port, reason), bind),
        call_ensures(local_addr_error, (reason,), local),
    ensures
        bind matches ActrError::Internal(m) && m@ == "WebSocketServer: failed to bind port "@
            + text::decimal(port as nat) + ": "@ + reason@,
        local matches ActrError::Internal(m) && m@
            == "WebSocketServer: failed to get local addr: "@ + reason@,
{
}

}
