//! The client of the signaling server.
//!
//! [`WebSocketSignalingClient`] is the client's state. Its socket, its tasks and its
//! channels are held outside: they perform what the methods return, and report back.
use crate::clock::{current_unix_secs, utc_timestamp};
use crate::encoding;
use crate::encoding::{append_pairs, base64_text, has_base64_room, parse_url};
use crate::error::{NetworkError, NetworkResult};
use crate::protocol::{AIdCredential, ActrId};
use crate::text;
use crate::text::{decimal_text, push_decimal};
use crate::wire::webrtc::envelope::{Flow, SignalingEnvelope, ENVELOPE_VERSION};
use vstd::hash_map::StringHashMap;
use vstd::prelude::*;
use vstd::string::StringExecFns;

verus! {

/// How long a reply of the server is waited for, in seconds.
pub const RESPONSE_TIMEOUT_SECS: u64 = 15;

/// The pause between two pings, in seconds.
pub const PING_INTERVAL_SECS: u64 = 5;

/// The silence after which the connection counts as lost, in seconds.
pub const PONG_TIMEOUT_SECS: u64 = 10;

/// How long a connection that another task is making is waited for, in seconds.
pub const CONCURRENT_CONNECT_SECS: u64 = 30;

/// How many events a subscriber may lag behind.
pub const EVENT_CAPACITY: usize = 64;

/// Settings of the client.
pub struct SignalingConfig {
    /// The serialised URL of the server.
    pub server_url: String,
    /// The time that one connection attempt may take, in seconds; zero is no limit.
    pub connection_timeout: u64,
    /// The pause between two signs of life, in seconds.
    pub heartbeat_interval: u64,
    /// What is done when the connection is lost.
    pub reconnect_config: ReconnectConfig,
    /// How the client authenticates.
    pub auth_config: Option<AuthConfig>,
    /// The role that this node prefers in negotiations.
    pub webrtc_role: Option<String>,
}

/// What is done when the connection is lost.
#[derive(Debug, Clone, Copy, PartialEq, Eq, Structural)]
pub struct ReconnectConfig {
    /// Whether the client reconnects by itself.
    pub enabled: bool,
    /// How often it tries.
    pub max_attempts: u32,
    /// The first pause, in seconds.
    pub initial_delay: u64,
    /// The longest pause, in seconds.
    pub max_delay: u64,
    /// The factor from one pause to the next, in hundredths.
    pub backoff_multiplier_percent: u32,
}

impl Default for ReconnectConfig {
    fn default() -> (c: Self)
        ensures
            c == (ReconnectConfig {
                enabled: true,
                max_attempts: 10,
                initial_delay: 1,
                max_delay: 60,
                backoff_multiplier_percent: 200,
            }),
    {
        ReconnectConfig {
            enabled: true,
            max_attempts: 10,
            initial_delay: 1,
            max_delay: 60,
            backoff_multiplier_percent: 200,
        }
    }
}

/// How the client authenticates.
pub struct AuthConfig {
    pub auth_type: AuthType,
    /// What the kind of authentication asks for, by name.
    pub credentials: StringHashMap<String>,
}

/// Kinds of authentication.
#[derive(Debug, Clone, Copy, PartialEq, Eq, Structural)]
pub enum AuthType {
    /// None.
    NoAuth,
    BearerToken,
    ApiKey,
    Jwt,
}

/// Whether the client is connected.
#[derive(Debug, Clone, Copy, PartialEq, Eq, Structural)]
pub enum ConnectionState {
    Disconnected,
    Connected,
}

/// A change that every subscriber is told of.
#[derive(Debug, Clone)]
pub enum SignalingEvent {
    /// A connection attempt begins.
    ConnectStart { attempt: u32 },
    /// The connection stands.
    Connected,
    /// The connection is lost.
    Disconnected { reason: DisconnectReason },
}

/// Why the connection is lost.
#[derive(Debug, Clone)]
pub enum DisconnectReason {
    /// The socket's stream ended.
    StreamEnded,
    /// Nothing was heard for too long.
    PongTimeout,
    /// A ping could not be sent.
    PingSendFailed,
    /// The credential has expired.
    CredentialExpired,
    /// It was asked for.
    Manual,
    /// It could not be made.
    ConnectionFailed(String),
}

/// A change that lifecycle hooks are told of.
#[derive(Debug, Clone)]
pub enum HookEvent {
    SignalingConnectStart { attempt: u32 },
    SignalingConnected,
    SignalingDisconnected,
    WebRtcConnectStart { peer_id: ActrId },
    WebRtcConnected { peer_id: ActrId, relayed: bool },
    WebRtcDisconnected { peer_id: ActrId },
}

/// Counters of the client. They wrap.
#[derive(Debug, Clone, Copy, PartialEq, Eq, Structural)]
pub struct AtomicSignalingStats {
    pub connections: u64,
    pub disconnections: u64,
    pub messages_sent: u64,
    pub messages_received: u64,
    pub heartbeats_sent: u64,
    pub heartbeats_received: u64,
    pub errors: u64,
}

/// The counters at one moment.
#[derive(Debug, Clone, Copy, PartialEq, Eq, Structural)]
pub struct SignalingStats {
    pub connections: u64,
    pub disconnections: u64,
    pub messages_sent: u64,
    pub messages_received: u64,
    pub heartbeats_sent: u64,
    pub heartbeats_received: u64,
    pub errors: u64,
}

impl Default for AtomicSignalingStats {
    fn default() -> (s: Self)
        ensures
            s == no_stats(),
    {
        AtomicSignalingStats {
            connections: 0,
            disconnections: 0,
            messages_sent: 0,
            messages_received: 0,
            heartbeats_sent: 0,
            heartbeats_received: 0,
            errors: 0,
        }
    }
}

/// Counters at zero.
pub open spec fn no_stats() -> AtomicSignalingStats {
    AtomicSignalingStats {
        connections: 0,
        disconnections: 0,
        messages_sent: 0,
        messages_received: 0,
        heartbeats_sent: 0,
        heartbeats_received: 0,
        errors: 0,
    }
}

impl AtomicSignalingStats {
    /// The counters at this moment.
    pub open spec fn spec_snapshot(&self) -> SignalingStats {
        SignalingStats {
            connections: self.connections,
            disconnections: self.disconnections,
            messages_sent: self.messages_sent,
            messages_received: self.messages_received,
            heartbeats_sent: self.heartbeats_sent,
            heartbeats_received: self.heartbeats_received,
            errors: self.errors,
        }
    }

    /// The counters at this moment.
    pub fn snapshot(&self) -> (s: SignalingStats)
        ensures
            s == self.spec_snapshot(),
    {
        SignalingStats {
            connections: self.connections,
            disconnections: self.disconnections,
            messages_sent: self.messages_sent,
            messages_received: self.messages_received,
            heartbeats_sent: self.heartbeats_sent,
            heartbeats_received: self.heartbeats_received,
            errors: self.errors,
        }
    }

    /// One more connection.
    pub open spec fn one_connection(self) -> Self {
        AtomicSignalingStats { connections: self.connections.wrapping_add(1), ..self }
    }

    /// One more lost connection.
    pub open spec fn one_disconnection(self) -> Self {
        AtomicSignalingStats { disconnections: self.disconnections.wrapping_add(1), ..self }
    }

    /// One more message sent.
    pub open spec fn one_sent(self) -> Self {
        AtomicSignalingStats { messages_sent: self.messages_sent.wrapping_add(1), ..self }
    }

    /// One more message received.
    pub open spec fn one_received(self) -> Self {
        AtomicSignalingStats { messages_received: self.messages_received.wrapping_add(1), ..self }
    }

    /// One more error.
    pub open spec fn one_error(self) -> Self {
        AtomicSignalingStats { errors: self.errors.wrapping_add(1), ..self }
    }
}

/// What the outcome of a connection attempt is.
#[derive(Debug)]
pub enum AttemptOutcome {
    Opened,
    TimedOut,
    Failed(NetworkError),
}

/// What [`WebSocketSignalingClient::connect`] does.
#[derive(Debug, Clone, Copy, PartialEq, Eq, Structural)]
pub enum ConnectPlan {
    /// Nothing: the client is connected.
    AlreadyConnected,
    /// Another task is connecting; its outcome is waited for.
    WaitForOther,
    /// The client connects, with a [`RetryTask`].
    Establish,
}

/// Who is told of a change, in this order.
#[derive(Debug, Clone)]
pub struct Announcement {
    /// The event that the hook is called with, where one is installed.
    pub hook: HookEvent,
    /// The event to broadcast.
    pub event: SignalingEvent,
}

/// What happens when the client disconnects, in this order.
#[derive(Debug, Clone)]
pub struct DisconnectPlan {
    pub close_sink: bool,
    pub abort_receiver: bool,
    pub abort_ping: bool,
    /// Whether inbound envelopes that were not read are dropped.
    pub reset_inbound: bool,
    pub announcement: Announcement,
}

/// What the end of connecting brings.
#[derive(Debug, Clone)]
pub enum ConnectEnd {
    /// The receiver and the ping task are started.
    StartTasks,
    /// The event is broadcast to those who wait.
    Tell(SignalingEvent),
}

/// What is done about a lost connection.
#[derive(Debug, Clone)]
pub struct Loss {
    /// The event to broadcast.
    pub event: SignalingEvent,
    /// Whether the reconnect manager is woken.
    pub wake_reconnect: bool,
}

/// A frame on the socket.
#[derive(Debug)]
pub enum InboundFrame {
    /// Octets, and the envelope they decode to, if they do.
    Binary(Option<SignalingEnvelope>),
    Ping,
    Pong,
    /// Any other frame.
    Other,
    /// Reading failed.
    Failed,
}

/// What is done with a frame.
#[derive(Debug)]
pub enum ReceiveAction {
    /// Nothing.
    Ignore,
    /// The envelope goes to whoever waits for it.
    Deliver { waiter: u64, envelope: SignalingEnvelope },
    /// The envelope goes to the inbound channel.
    Forward { envelope: SignalingEnvelope },
    /// The stream is given up.
    Terminate,
}

/// How waiting for a reply ended.
#[derive(Debug)]
pub enum ReplyOutcome {
    SendFailed(NetworkError),
    Reply(SignalingEnvelope),
    TimedOut,
    /// Nobody will reply any more.
    Dropped,
}

/// What happened in the ping task.
#[derive(Debug, Clone, Copy, PartialEq, Eq, Structural)]
pub enum PingEvent {
    /// The pause is over.
    Tick,
    /// The ping was sent; this is the time.
    Sent { now: u64 },
    /// The ping could not be sent.
    SendFailed,
}

/// What the ping task does next.
#[derive(Debug)]
pub enum PingAction {
    /// Pause.
    Sleep { secs: u64 },
    /// Send a ping.
    SendPing,
    /// End.
    Stop,
    /// End; the connection is lost.
    Lost { loss: Loss, abort_receiver: bool },
}

/// What happened while another task's connection is waited for.
#[derive(Debug)]
pub enum WaitEvent {
    /// The time is up.
    Deadline,
    /// An event was broadcast.
    Event(SignalingEvent),
    /// Events were missed.
    Lagged,
    /// No more events will come.
    Closed,
}

/// The state of the client.
pub struct WebSocketSignalingClient {
    pub config: SignalingConfig,
    /// The identity that is told on connecting, as text.
    pub actor_id: Option<String>,
    /// The credential that is told on connecting.
    pub credential: Option<AIdCredential>,
    /// There is a socket to write to.
    pub has_sink: bool,
    /// There is a socket to read from that nobody reads yet.
    pub has_stream: bool,
    pub connected: bool,
    /// A task is connecting.
    pub connecting: bool,
    pub stats: AtomicSignalingStats,
    /// The number of the last envelope.
    pub envelope_counter: u64,
    /// Who waits for a reply, by the id of the envelope it is for.
    pub pending_replies: StringHashMap<u64>,
    pub receiver_running: bool,
    pub ping_running: bool,
    /// When something was last heard, in seconds.
    pub last_pong: u64,
    pub reconnector_started: bool,
    pub hook_installed: bool,
}

/// The text form of an envelope id.
pub open spec fn envelope_id(n: nat) -> Seq<char> {
    "env-"@ + text::decimal(n)
}

/// The pairs that name an identity in the query of the server's URL.
pub open spec fn identity_pairs(
    actor_id: Option<String>,
    credential: Option<AIdCredential>,
    role: Option<String>,
) -> Seq<(Seq<char>, Seq<char>)> {
    let actor = match actor_id {
        Some(id) => seq![("actor_id"@, id@)],
        None => Seq::empty(),
    };
    let proof_of_identity = match credential {
        Some(c) => seq![
            ("key_id"@, text::decimal(c.key_id as nat)),
            ("claims"@, encoding::base64_of(c.claims@)),
            ("signature"@, encoding::base64_of(c.signature@)),
        ],
        None => Seq::empty(),
    };
    let preference = match role {
        Some(r) => seq![("webrtc_role"@, r@)],
        None => Seq::empty(),
    };
    actor + proof_of_identity + preference
}

impl SignalingConfig {
    /// The settings of a client that only knows its server.
    pub fn for_url(url: &str) -> (r: Result<Self, String>)
        ensures
            match encoding::url_of(url@) {
                Ok(parsed) => r matches Ok(c) && c.server_url@ == parsed && c.connection_timeout
                    == 5 && c.heartbeat_interval == 30 && c.reconnect_config == (ReconnectConfig {
                    enabled: true,
                    max_attempts: 10,
                    initial_delay: 1,
                    max_delay: 60,
                    backoff_multiplier_percent: 200,
                }) && c.auth_config is None && c.webrtc_role is None,
                Err(e) => r matches Err(m) && m@ == e,
            },
    {
        match parse_url(url) {
            Ok(server_url) => Ok(
                SignalingConfig {
                    server_url,
                    connection_timeout: 5,
                    heartbeat_interval: 30,
                    reconnect_config: ReconnectConfig::default(),
                    auth_config: None,
                    webrtc_role: None,
                },
            ),
            Err(e) => Err(e),
        }
    }
}

/// The credential's parts are few enough for their text forms to be held in memory.
pub open spec fn fits_url(credential: Option<AIdCredential>) -> bool {
    credential matches Some(c) ==> encoding::fits_base64(c.claims@) && encoding::fits_base64(
        c.signature@,
    )
}

impl WebSocketSignalingClient {
    /// The client is nobody yet, is not connected and has done nothing.
    pub open spec fn is_idle(&self) -> bool {
        &&& self.actor_id is None
        &&& self.credential is None
        &&& !self.has_sink
        &&& !self.has_stream
        &&& !self.connected
        &&& !self.connecting
        &&& self.stats == no_stats()
        &&& self.envelope_counter == 0
        &&& self.pending_replies@ == Map::<Seq<char>, u64>::empty()
        &&& !self.receiver_running
        &&& !self.ping_running
        &&& self.last_pong == 0
        &&& !self.hook_installed
    }

    /// A client that is not connected and has done nothing yet.
    pub fn new(config: SignalingConfig) -> (c: Self)
        ensures
            c.config == config,
            c.is_idle(),
            !c.reconnector_started,
    {
        WebSocketSignalingClient {
            config,
            actor_id: None,
            credential: None,
            has_sink: false,
            has_stream: false,
            connected: false,
            connecting: false,
            stats: AtomicSignalingStats::default(),
            envelope_counter: 0,
            pending_replies: StringHashMap::new(),
            receiver_running: false,
            ping_running: false,
            last_pong: 0,
            reconnector_started: false,
            hook_installed: false,
        }
    }

    /// Installs the hook. Returns whether it is installed now; only the first one is.
    pub fn set_hook_callback(&mut self) -> (installed: bool)
        ensures
            installed == !old(self).hook_installed,
            *final(self) == (WebSocketSignalingClient { hook_installed: true, ..*old(self) }),
    {
        let installed = !self.hook_installed;
        self.hook_installed = true;
        installed
    }

    /// Starts the reconnect manager. Returns whether its task is to be started: once,
    /// and only where the client reconnects by itself.
    pub fn start_reconnect_manager(&mut self) -> (start: bool)
        ensures
            start == (old(self).config.reconnect_config.enabled && !old(self).reconnector_started),
            *final(self) == (WebSocketSignalingClient {
                reconnector_started: old(self).reconnector_started || old(
                    self,
                ).config.reconnect_config.enabled,
                ..*old(self)
            }),
    {
        if !self.config.reconnect_config.enabled {
            return false;
        }
        let start = !self.reconnector_started;
        self.reconnector_started = true;
        start
    }

    /// Whether the reconnect manager, when woken, runs a cycle rather than ends.
    pub fn manager_runs_cycle(&self) -> (r: bool)
        ensures
            r == self.config.reconnect_config.enabled,
    {
        self.config.reconnect_config.enabled
    }

    /// The id of the next envelope.
    pub fn next_envelope_id(&mut self) -> (id: String)
        requires
            old(self).envelope_counter < u64::MAX,
        ensures
            id@ == envelope_id((old(self).envelope_counter + 1) as nat),
            *final(self) == (WebSocketSignalingClient {
                envelope_counter: (old(self).envelope_counter + 1) as u64,
                ..*old(self)
            }),
    {
        self.envelope_counter = self.envelope_counter + 1;
        let mut id = "env-".to_owned();
        push_decimal(&mut id, self.envelope_counter);
        id
    }

    /// Makes an envelope at a given time.
    pub fn create_envelope_at(&mut self, flow: Flow, seconds: i64) -> (e: SignalingEnvelope)
        requires
            old(self).envelope_counter < u64::MAX,
        ensures
            e.envelope_version == ENVELOPE_VERSION,
            e.envelope_id@ == envelope_id((old(self).envelope_counter + 1) as nat),
            e.reply_for is None,
            e.timestamp_seconds == seconds,
            e.timestamp_nanos == 0,
            e.traceparent is None,
            e.tracestate is None,
            e.flow == flow,
            *final(self) == (WebSocketSignalingClient {
                envelope_counter: (old(self).envelope_counter + 1) as u64,
                ..*old(self)
            }),
    {
        SignalingEnvelope {
            envelope_version: ENVELOPE_VERSION,
            envelope_id: self.next_envelope_id(),
            reply_for: None,
            timestamp_seconds: seconds,
            timestamp_nanos: 0,
            traceparent: None,
            tracestate: None,
            flow,
        }
    }

    /// Makes an envelope at the present time.
    pub fn create_envelope(&mut self, flow: Flow) -> (e: SignalingEnvelope)
        requires
            old(self).envelope_counter < u64::MAX,
        ensures
            e.envelope_version == ENVELOPE_VERSION,
            e.envelope_id@ == envelope_id((old(self).envelope_counter + 1) as nat),
            e.reply_for is None,
            e.timestamp_nanos == 0,
            e.traceparent is None,
            e.tracestate is None,
            e.flow == flow,
            *final(self) == (WebSocketSignalingClient {
                envelope_counter: (old(self).envelope_counter + 1) as u64,
                ..*old(self)
            }),
    {
        let seconds: i64 = utc_timestamp();
        self.create_envelope_at(flow, seconds)
    }

    /// The server's URL with the identity, the credential and the preferred role in
    /// its query. Parts that are not set are left out. `None` says that it would grow too
    /// long for that.
    pub fn build_url_with_identity(&self) -> (r: Option<Result<String, String>>)
        ensures
            ({
                let url = self.config.server_url@;
                let pairs = identity_pairs(self.actor_id, self.credential, self.config.webrtc_role);
                match r {
                    Some(r) => {
                        &&& fits_url(self.credential)
                        &&& encoding::pairs_fit(url, pairs, pairs.len())
                        &&& encoding::texts(r) == encoding::with_pairs(url, pairs, pairs.len())
                    },
                    None => !fits_url(self.credential) || !encoding::pairs_fit(
                        url,
                        pairs,
                        pairs.len(),
                    ),
                }
            }),
    {
        if let Some(c) = &self.credential {
            if !has_base64_room(c.claims.as_slice()) || !has_base64_room(c.signature.as_slice()) {
                return None;
            }
        }
        let pairs = self.identity_query();
        append_pairs(self.config.server_url.as_str(), &pairs)
    }

    /// The pairs that name the identity, the credential and the preferred role.
    pub fn identity_query(&self) -> (pairs: Vec<(String, String)>)
        requires
            fits_url(self.credential),
        ensures
            encoding::pair_texts(pairs@) == identity_pairs(
                self.actor_id,
                self.credential,
                self.config.webrtc_role,
            ),
    {
        let mut pairs: Vec<(String, String)> = Vec::new();
        if let Some(id) = &self.actor_id {
            pairs.push(("actor_id".to_owned(), id.clone()));
        }
        if let Some(c) = &self.credential {
            pairs.push(("key_id".to_owned(), decimal_text(c.key_id as u64)));
            pairs.push(("claims".to_owned(), base64_text(c.claims.as_slice())));
            pairs.push(("signature".to_owned(), base64_text(c.signature.as_slice())));
        }
        if let Some(role) = &self.config.webrtc_role {
            pairs.push(("webrtc_role".to_owned(), role.clone()));
        }
        assert(encoding::pair_texts(pairs@) =~= identity_pairs(
            self.actor_id,
            self.credential,
            self.config.webrtc_role,
        ));
        pairs
    }

    /// The time that a connection attempt may take, in seconds, if it is limited.
    pub fn attempt_timeout(&self) -> (r: Option<u64>)
        ensures
            r == if self.config.connection_timeout == 0 {
                None
            } else {
                Some(self.config.connection_timeout)
            },
    {
        if self.config.connection_timeout == 0 {
            None
        } else {
            Some(self.config.connection_timeout)
        }
    }

    /// Takes the outcome of one connection attempt at the present time.
    pub fn establish_connection_once(&mut self, outcome: AttemptOutcome) -> (r: NetworkResult<
        Announcement,
    >)
        ensures
            exists|now: u64| #[trigger] attempted(*old(self), outcome, now, *final(self), r),
    {
        let now: u64 = current_unix_secs();
        self.attempt_finished(outcome, now)
    }

    /// Takes the outcome of one connection attempt.
    ///
    /// An open socket makes the client connected and counts as a sign of life; the hook
    /// and the subscribers are told, and then the connection is counted: see
    /// [`WebSocketSignalingClient::connection_told`].
    pub fn attempt_finished(&mut self, outcome: AttemptOutcome, now: u64) -> (r: NetworkResult<
        Announcement,
    >)
        ensures
            attempted(*old(self), outcome, now, *final(self), r),
    {
        match outcome {
            AttemptOutcome::Opened => {
                self.has_sink = true;
                self.has_stream = true;
                self.connected = true;
                self.last_pong = now;
                Ok(
                    Announcement {
                        hook: HookEvent::SignalingConnected,
                        event: SignalingEvent::Connected,
                    },
                )
            },
            AttemptOutcome::TimedOut => {
                let mut m = "Signaling connect timeout after ".to_owned();
                push_decimal(&mut m, self.config.connection_timeout);
                m.append("s");
                Err(NetworkError::ConnectionError(m))
            },
            AttemptOutcome::Failed(e) => Err(e),
        }
    }

    /// Counts a connection once the hook and the subscribers have been told of it.
    pub fn connection_told(&mut self)
        ensures
            *final(self) == counted(*old(self)),
    {
        self.stats.connections = self.stats.connections.wrapping_add(1);
    }

    /// Begins to connect, unless the client is connected or a task is connecting.
    pub fn connect(&mut self) -> (p: ConnectPlan)
        ensures
            if old(self).connected {
                p is AlreadyConnected && *final(self) == *old(self)
            } else if old(self).connecting {
                p is WaitForOther && *final(self) == *old(self)
            } else {
                p is Establish && *final(self) == (WebSocketSignalingClient {
                    connecting: true,
                    ..*old(self)
                })
            },
    {
        if self.connected {
            return ConnectPlan::AlreadyConnected;
        }
        if self.connecting {
            return ConnectPlan::WaitForOther;
        }
        self.connecting = true;
        ConnectPlan::Establish
    }

    /// Connecting has ended: well, or with a failure given in words.
    pub fn connect_finished(&mut self, failure: Option<String>) -> (e: ConnectEnd)
        ensures
            *final(self) == (WebSocketSignalingClient { connecting: false, ..*old(self) }),
            e == match failure {
                None => ConnectEnd::StartTasks,
                Some(words) => ConnectEnd::Tell(
                    SignalingEvent::Disconnected {
                        reason: DisconnectReason::ConnectionFailed(words),
                    },
                ),
            },
    {
        self.connecting = false;
        match failure {
            None => ConnectEnd::StartTasks,
            Some(words) => ConnectEnd::Tell(
                SignalingEvent::Disconnected { reason: DisconnectReason::ConnectionFailed(words) },
            ),
        }
    }

    /// Takes an event while another task's connection is waited for; `None` says to
    /// wait on.
    pub fn wait_for_connection_result(&self, event: WaitEvent) -> (r: Option<NetworkResult<()>>)
        ensures
            match event {
                WaitEvent::Deadline => if self.connected {
                    r == Some(Ok::<(), NetworkError>(()))
                } else {
                    r matches Some(Err(NetworkError::ConnectionError(m))) && m@
                        == "Timeout waiting for concurrent connection attempt"@
                },
                WaitEvent::Event(e) => if e is Connected {
                    r == Some(Ok::<(), NetworkError>(()))
                } else {
                    r is None
                },
                WaitEvent::Lagged => if self.connected {
                    r == Some(Ok::<(), NetworkError>(()))
                } else {
                    r is None
                },
                WaitEvent::Closed => r matches Some(Err(NetworkError::ConnectionError(m))) && m@
                    == "Event channel closed while waiting for connection"@,
            },
    {
        match event {
            WaitEvent::Deadline => if self.connected {
                Some(Ok(()))
            } else {
                Some(
                    Err(
                        NetworkError::ConnectionError(
                            "Timeout waiting for concurrent connection attempt".to_owned(),
                        ),
                    ),
                )
            },
            WaitEvent::Event(SignalingEvent::Connected) => Some(Ok(())),
            WaitEvent::Event(_) => None,
            WaitEvent::Lagged => if self.connected {
                Some(Ok(()))
            } else {
                None
            },
            WaitEvent::Closed => Some(
                Err(
                    NetworkError::ConnectionError(
                        "Event channel closed while waiting for connection".to_owned(),
                    ),
                ),
            ),
        }
    }

    /// Disconnects, connected or not: whatever runs is stopped, inbound envelopes that were
    /// not read are dropped, and the hook and the subscribers are told. This never fails.
    pub fn disconnect(&mut self) -> (r: NetworkResult<DisconnectPlan>)
        ensures
            r == Ok::<DisconnectPlan, NetworkError>(
                DisconnectPlan {
                    close_sink: old(self).has_sink,
                    abort_receiver: old(self).receiver_running,
                    abort_ping: old(self).ping_running,
                    reset_inbound: true,
                    announcement: Announcement {
                        hook: HookEvent::SignalingDisconnected,
                        event: SignalingEvent::Disconnected { reason: DisconnectReason::Manual },
                    },
                },
            ),
            *final(self) == disconnected(*old(self)),
    {
        let p = DisconnectPlan {
            close_sink: self.has_sink,
            abort_receiver: self.receiver_running,
            abort_ping: self.ping_running,
            reset_inbound: true,
            announcement: Announcement {
                hook: HookEvent::SignalingDisconnected,
                event: SignalingEvent::Disconnected { reason: DisconnectReason::Manual },
            },
        };
        self.has_sink = false;
        self.has_stream = false;
        self.receiver_running = false;
        self.ping_running = false;
        self.connected = false;
        self.stats.disconnections = self.stats.disconnections.wrapping_add(1);
        Ok(p)
    }

    /// Whether an envelope can be sent now.
    pub fn send_envelope(&self) -> (r: NetworkResult<()>)
        ensures
            if !self.connected {
                r matches Err(NetworkError::ConnectionError(m)) && m@
                    == "Cannot send: WebSocket not connected"@
            } else if !self.has_sink {
                r matches Err(NetworkError::ConnectionError(m)) && m@ == "Not connected"@
            } else {
                r is Ok
            },
    {
        if !self.connected {
            return Err(
                NetworkError::ConnectionError("Cannot send: WebSocket not connected".to_owned()),
            );
        }
        if self.has_sink {
            Ok(())
        } else {
            Err(NetworkError::ConnectionError("Not connected".to_owned()))
        }
    }

    /// An envelope was sent.
    pub fn envelope_sent(&mut self)
        ensures
            *final(self) == (WebSocketSignalingClient { stats: old(self).stats.one_sent(), ..*old(self) }),
    {
        self.stats.messages_sent = self.stats.messages_sent.wrapping_add(1);
    }

    /// Registers who waits for the reply to an envelope, before it is sent.
    pub fn await_reply(&mut self, envelope: &SignalingEnvelope, waiter: u64)
        ensures
            *final(self) == (WebSocketSignalingClient {
                pending_replies: final(self).pending_replies,
                ..*old(self)
            }),
            final(self).pending_replies@ == old(self).pending_replies@.insert(
                envelope.envelope_id@,
                waiter,
            ),
    {
        self.pending_replies.insert(envelope.envelope_id.clone(), waiter);
    }

    /// Waiting for the reply to the envelope `reply_for` has ended. Whoever waited is
    /// forgotten if the envelope was not sent or the time was up.
    pub fn send_envelope_and_wait_response(&mut self, reply_for: &str, outcome: ReplyOutcome) -> (r:
        NetworkResult<SignalingEnvelope>)
        ensures
            waited(*old(self), reply_for@, outcome, *final(self)),
            match outcome {
                ReplyOutcome::SendFailed(e) => r == Err::<SignalingEnvelope, NetworkError>(e),
                ReplyOutcome::Reply(envelope) => r == Ok::<SignalingEnvelope, NetworkError>(
                    envelope,
                ),
                ReplyOutcome::TimedOut => r matches Err(NetworkError::ConnectionError(m)) && m@
                    == "Timed out waiting for signaling response"@,
                ReplyOutcome::Dropped => r matches Err(NetworkError::ConnectionError(m)) && m@
                    == "Receiver dropped while waiting for signaling response"@,
            },
    {
        match outcome {
            ReplyOutcome::SendFailed(e) => {
                self.pending_replies.remove(reply_for);
                Err(e)
            },
            ReplyOutcome::Reply(envelope) => Ok(envelope),
            ReplyOutcome::TimedOut => {
                self.pending_replies.remove(reply_for);
                Err(
                    NetworkError::ConnectionError(
                        "Timed out waiting for signaling response".to_owned(),
                    ),
                )
            },
            ReplyOutcome::Dropped => Err(
                NetworkError::ConnectionError(
                    "Receiver dropped while waiting for signaling response".to_owned(),
                ),
            ),
        }
    }

    /// Waiting for the reply to a sign of life has ended. Whoever waited is forgotten if the
    /// envelope was not sent or the time was up.
    pub fn heartbeat_response(&mut self, reply_for: &str, outcome: ReplyOutcome) -> (r:
        NetworkResult<SignalingEnvelope>)
        ensures
            waited(*old(self), reply_for@, outcome, *final(self)),
            match outcome {
                ReplyOutcome::SendFailed(e) => r == Err::<SignalingEnvelope, NetworkError>(e),
                ReplyOutcome::Reply(envelope) => r == Ok::<SignalingEnvelope, NetworkError>(
                    envelope,
                ),
                ReplyOutcome::TimedOut => r matches Err(NetworkError::ConnectionError(m)) && m@
                    == "Timed out waiting for heartbeat response"@,
                ReplyOutcome::Dropped => r matches Err(NetworkError::ConnectionError(m)) && m@
                    == "Receiver dropped while waiting for heartbeat response"@,
            },
    {
        match outcome {
            ReplyOutcome::SendFailed(e) => {
                self.pending_replies.remove(reply_for);
                Err(e)
            },
            ReplyOutcome::Reply(envelope) => Ok(envelope),
            ReplyOutcome::TimedOut => {
                self.pending_replies.remove(reply_for);
                Err(
                    NetworkError::ConnectionError(
                        "Timed out waiting for heartbeat response".to_owned(),
                    ),
                )
            },
            ReplyOutcome::Dropped => Err(
                NetworkError::ConnectionError(
                    "Receiver dropped while waiting for heartbeat response".to_owned(),
                ),
            ),
        }
    }

    /// Takes over the socket's stream. Returns whether there is one to read.
    pub fn start_receiver(&mut self) -> (start: bool)
        ensures
            start == old(self).has_stream,
            *final(self) == (WebSocketSignalingClient {
                has_stream: false,
                receiver_running: old(self).receiver_running || old(self).has_stream,
                ..*old(self)
            }),
    {
        if !self.has_stream {
            return false;
        }
        self.has_stream = false;
        self.receiver_running = true;
        true
    }

    /// Takes a frame at a given time.
    ///
    /// Octets, pings and pongs are signs of life. An envelope that answers one that is
    /// waited for goes to whoever waits, who is then forgotten; any other envelope goes
    /// to the inbound channel.
    pub fn receive_frame(&mut self, frame: InboundFrame, now: u64) -> (a: ReceiveAction)
        ensures
            received(*old(self), frame, now, *final(self), a),
    {
        match frame {
            InboundFrame::Binary(decoded) => {
                self.last_pong = now;
                match decoded {
                    Some(envelope) => {
                        self.stats.messages_received = self.stats.messages_received.wrapping_add(1);
                        let waiter: Option<u64> = match &envelope.reply_for {
                            Some(reply_for) => {
                                let waiter: Option<u64> = match self.pending_replies.get(
                                    reply_for.as_str(),
                                ) {
                                    Some(w) => Some(*w),
                                    None => None,
                                };
                                if waiter.is_some() {
                                    self.pending_replies.remove(reply_for.as_str());
                                }
                                waiter
                            },
                            None => None,
                        };
                        match waiter {
                            Some(waiter) => ReceiveAction::Deliver { waiter, envelope },
                            None => ReceiveAction::Forward { envelope },
                        }
                    },
                    None => {
                        self.stats.errors = self.stats.errors.wrapping_add(1);
                        ReceiveAction::Ignore
                    },
                }
            },
            InboundFrame::Ping | InboundFrame::Pong => {
                self.last_pong = now;
                ReceiveAction::Ignore
            },
            InboundFrame::Other => ReceiveAction::Ignore,
            InboundFrame::Failed => {
                self.stats.errors = self.stats.errors.wrapping_add(1);
                ReceiveAction::Terminate
            },
        }
    }

    /// Takes a frame at the present time.
    pub fn receive(&mut self, frame: InboundFrame) -> (a: ReceiveAction)
        ensures
            exists|now: u64| #[trigger] received(*old(self), frame, now, *final(self), a),
    {
        let now: u64 = current_unix_secs();
        self.receive_frame(frame, now)
    }

    /// A ping was sent, at the present time.
    pub fn ping_sent(&mut self) -> (a: PingAction)
        ensures
            exists|now: u64|
                #[trigger] pinged(*old(self), PingEvent::Sent { now }, *final(self), a),
    {
        let now: u64 = current_unix_secs();
        self.ping_step(PingEvent::Sent { now })
    }

    /// An envelope could not be handed on.
    pub fn delivery_failed(&mut self)
        ensures
            *final(self) == (WebSocketSignalingClient {
                stats: old(self).stats.one_error(),
                ..*old(self)
            }),
    {
        self.stats.errors = self.stats.errors.wrapping_add(1);
    }

    /// The stream ended: the connection is lost.
    pub fn stream_terminated(&mut self) -> (l: Loss)
        ensures
            *final(self) == (WebSocketSignalingClient {
                connected: false,
                stats: old(self).stats.one_disconnection(),
                ..*old(self)
            }),
            l == (Loss {
                event: SignalingEvent::Disconnected { reason: DisconnectReason::StreamEnded },
                wake_reconnect: old(self).config.reconnect_config.enabled,
            }),
    {
        self.stats.disconnections = self.stats.disconnections.wrapping_add(1);
        self.connected = false;
        Loss {
            event: SignalingEvent::Disconnected { reason: DisconnectReason::StreamEnded },
            wake_reconnect: self.config.reconnect_config.enabled,
        }
    }

    /// Starts the ping task, given whether an earlier one has ended. Returns whether it
    /// is to be started: an earlier one that still runs is kept.
    pub fn start_ping_task(&mut self, earlier_finished: bool) -> (start: bool)
        ensures
            start == (!old(self).ping_running || earlier_finished),
            *final(self) == (WebSocketSignalingClient { ping_running: true, ..*old(self) }),
    {
        let start = !self.ping_running || earlier_finished;
        self.ping_running = true;
        start
    }

    /// Takes an event of the ping task.
    ///
    /// The task ends once the client is not connected. A ping that cannot be sent, or
    /// more than ten seconds without a sign of life, lose the connection.
    pub fn ping_step(&mut self, event: PingEvent) -> (a: PingAction)
        ensures
            pinged(*old(self), event, *final(self), a),
    {
        match event {
            PingEvent::Tick => {
                if !self.connected {
                    PingAction::Stop
                } else if self.has_sink {
                    PingAction::SendPing
                } else {
                    self.connected = false;
                    PingAction::Lost {
                        loss: self.loss(DisconnectReason::PingSendFailed),
                        abort_receiver: false,
                    }
                }
            },
            PingEvent::SendFailed => {
                self.connected = false;
                PingAction::Lost {
                    loss: self.loss(DisconnectReason::PingSendFailed),
                    abort_receiver: false,
                }
            },
            PingEvent::Sent { now } => {
                if now.saturating_sub(self.last_pong) > PONG_TIMEOUT_SECS {
                    let abort_receiver = self.receiver_running;
                    self.receiver_running = false;
                    self.connected = false;
                    PingAction::Lost {
                        loss: self.loss(DisconnectReason::PongTimeout),
                        abort_receiver,
                    }
                } else {
                    PingAction::Sleep { secs: PING_INTERVAL_SECS }
                }
            },
        }
    }

    fn loss(&self, reason: DisconnectReason) -> (l: Loss)
        ensures
            l == (Loss {
                event: SignalingEvent::Disconnected { reason },
                wake_reconnect: self.config.reconnect_config.enabled,
            }),
    {
        Loss {
            event: SignalingEvent::Disconnected { reason },
            wake_reconnect: self.config.reconnect_config.enabled,
        }
    }

    /// Hands on an item of the inbound channel; `None` says that it is closed.
    pub fn receive_envelope(&self, item: Option<SignalingEnvelope>) -> (r: NetworkResult<
        Option<SignalingEnvelope>,
    >)
        ensures
            match item {
                Some(envelope) => r == Ok::<Option<SignalingEnvelope>, NetworkError>(
                    Some(envelope),
                ),
                None => r matches Err(NetworkError::ConnectionError(m)) && m@
                    == "Inbound channel closed"@,
            },
    {
        match item {
            Some(envelope) => Ok(Some(envelope)),
            None => Err(NetworkError::ConnectionError("Inbound channel closed".to_owned())),
        }
    }

    /// Whether the client is connected.
    pub fn is_connected(&self) -> (r: bool)
        ensures
            r == self.connected,
    {
        self.connected
    }

    /// The connection state.
    pub fn connection_state(&self) -> (s: ConnectionState)
        ensures
            s is Connected <==> self.connected,
    {
        if self.connected {
            ConnectionState::Connected
        } else {
            ConnectionState::Disconnected
        }
    }

    /// The counters at this moment.
    pub fn get_stats(&self) -> (s: SignalingStats)
        ensures
            s == self.stats.spec_snapshot(),
    {
        self.stats.snapshot()
    }

    /// Sets the identity that is told on connecting, as text.
    pub fn set_actor_id(&mut self, actor_id: String)
        ensures
            *final(self) == (WebSocketSignalingClient { actor_id: Some(actor_id), ..*old(self) }),
    {
        self.actor_id = Some(actor_id);
    }

    /// Sets the credential that is told on connecting.
    pub fn set_credential_state(&mut self, credential: AIdCredential)
        ensures
            *final(self) == (WebSocketSignalingClient {
                credential: Some(credential),
                ..*old(self)
            }),
    {
        self.credential = Some(credential);
    }

    /// Forgets identity and credential: the next connection is that of a stranger.
    pub fn clear_identity(&mut self)
        ensures
            *final(self) == (WebSocketSignalingClient {
                actor_id: None,
                credential: None,
                ..*old(self)
            }),
    {
        self.actor_id = None;
        self.credential = None;
    }
}

/// The client once it has disconnected.
pub open spec fn disconnected(c: WebSocketSignalingClient) -> WebSocketSignalingClient {
    WebSocketSignalingClient {
        has_sink: false,
        has_stream: false,
        receiver_running: false,
        ping_running: false,
        connected: false,
        stats: c.stats.one_disconnection(),
        ..c
    }
}

/// The client once a connection is counted.
pub open spec fn counted(c: WebSocketSignalingClient) -> WebSocketSignalingClient {
    WebSocketSignalingClient { stats: c.stats.one_connection(), ..c }
}

/// What a connection attempt that ended at `now` does.
pub open spec fn attempted(
    before: WebSocketSignalingClient,
    outcome: AttemptOutcome,
    now: u64,
    after: WebSocketSignalingClient,
    r: NetworkResult<Announcement>,
) -> bool {
    match outcome {
        AttemptOutcome::Opened => {
            &&& r == Ok::<Announcement, NetworkError>(
                Announcement {
                    hook: HookEvent::SignalingConnected,
                    event: SignalingEvent::Connected,
                },
            )
            &&& after == (WebSocketSignalingClient {
                has_sink: true,
                has_stream: true,
                connected: true,
                last_pong: now,
                ..before
            })
        },
        AttemptOutcome::TimedOut => after == before && (r matches Err(
            NetworkError::ConnectionError(m),
        ) && m@ == "Signaling connect timeout after "@ + text::decimal(
            before.config.connection_timeout as nat,
        ) + "s"@),
        AttemptOutcome::Failed(e) => after == before && r == Err::<Announcement, NetworkError>(e),
    }
}

/// What the end of waiting for a reply does.
pub open spec fn waited(
    before: WebSocketSignalingClient,
    reply_for: Seq<char>,
    outcome: ReplyOutcome,
    after: WebSocketSignalingClient,
) -> bool {
    &&& after == (WebSocketSignalingClient { pending_replies: after.pending_replies, ..before })
    &&& after.pending_replies@ == if outcome is SendFailed || outcome is TimedOut {
        before.pending_replies@.remove(reply_for)
    } else {
        before.pending_replies@
    }
}

/// Who waits for this envelope, if anyone.
pub open spec fn waiter_of(c: WebSocketSignalingClient, e: SignalingEnvelope) -> Option<u64> {
    match e.reply_for {
        Some(id) if c.pending_replies@.contains_key(id@) => Some(c.pending_replies@[id@]),
        _ => None,
    }
}

/// What a frame that came at `now` does.
pub open spec fn received(
    before: WebSocketSignalingClient,
    frame: InboundFrame,
    now: u64,
    after: WebSocketSignalingClient,
    a: ReceiveAction,
) -> bool {
    match frame {
        InboundFrame::Binary(Some(e)) => {
            &&& after == (WebSocketSignalingClient {
                last_pong: now,
                stats: before.stats.one_received(),
                pending_replies: after.pending_replies,
                ..before
            })
            &&& match waiter_of(before, e) {
                Some(waiter) => {
                    &&& a == (ReceiveAction::Deliver { waiter, envelope: e })
                    &&& after.pending_replies@ == before.pending_replies@.remove(e.reply_for->0@)
                },
                None => {
                    &&& a == (ReceiveAction::Forward { envelope: e })
                    &&& after.pending_replies == before.pending_replies
                },
            }
        },
        InboundFrame::Binary(None) => a is Ignore && after == (WebSocketSignalingClient {
            last_pong: now,
            stats: before.stats.one_error(),
            ..before
        }),
        InboundFrame::Ping | InboundFrame::Pong => a is Ignore && after == (
        WebSocketSignalingClient { last_pong: now, ..before }),
        InboundFrame::Other => a is Ignore && after == before,
        InboundFrame::Failed => a is Terminate && after == (WebSocketSignalingClient {
            stats: before.stats.one_error(),
            ..before
        }),
    }
}

/// Nothing was heard for too long at `now`.
pub open spec fn silent(c: WebSocketSignalingClient, now: u64) -> bool {
    now > c.last_pong + PONG_TIMEOUT_SECS
}

/// What an event of the ping task does.
pub open spec fn pinged(
    before: WebSocketSignalingClient,
    event: PingEvent,
    after: WebSocketSignalingClient,
    a: PingAction,
) -> bool {
    let wake_reconnect = before.config.reconnect_config.enabled;
    let send_failed = PingAction::Lost {
        loss: Loss {
            event: SignalingEvent::Disconnected { reason: DisconnectReason::PingSendFailed },
            wake_reconnect,
        },
        abort_receiver: false,
    };
    match event {
        PingEvent::Tick => if !before.connected {
            a is Stop && after == before
        } else if before.has_sink {
            a is SendPing && after == before
        } else {
            a == send_failed && after == (WebSocketSignalingClient { connected: false, ..before })
        },
        PingEvent::SendFailed => a == send_failed && after == (WebSocketSignalingClient {
            connected: false,
            ..before
        }),
        PingEvent::Sent { now } => if silent(before, now) {
            &&& a == (PingAction::Lost {
                loss: Loss {
                    event: SignalingEvent::Disconnected { reason: DisconnectReason::PongTimeout },
                    wake_reconnect,
                },
                abort_receiver: before.receiver_running,
            })
            &&& after == (WebSocketSignalingClient {
                connected: false,
                receiver_running: false,
                ..before
            })
        } else {
            a == (PingAction::Sleep { secs: PING_INTERVAL_SECS }) && after == before
        },
    }
}

// ── Laws ──────────────────────────────────────────────────────────────────────

/// A new client is nobody, is not connected, has counted nothing, and nobody waits for it.
pub proof fn a_new_client_has_done_nothing(
    config: SignalingConfig,
    c: WebSocketSignalingClient,
    up: bool,
    state: ConnectionState,
    stats: SignalingStats,
    sendable: NetworkResult<()>,
)
    requires
        call_ensures(WebSocketSignalingClient::new, (config,), c),
        call_ensures(WebSocketSignalingClient::is_connected, (&c,), up),
        call_ensures(WebSocketSignalingClient::connection_state, (&c,), state),
        call_ensures(WebSocketSignalingClient::get_stats, (&c,), stats),
        call_ensures(WebSocketSignalingClient::send_envelope, (&c,), sendable),
    ensures
        !up,
        state is Disconnected,
        sendable is Err,
        stats.connections == 0 && stats.disconnections == 0 && stats.messages_sent == 0,
        stats.messages_received == 0 && stats.heartbeats_sent == 0 && stats.heartbeats_received
            == 0 && stats.errors == 0,
        c.config == config,
        c.actor_id is None && c.credential is None && !c.connecting && !c.reconnector_started,
        !c.receiver_running && !c.ping_running && !c.hook_installed && !c.has_stream,
        c.pending_replies@.len() == 0,
        c.envelope_counter == 0,
        c.last_pong == 0,
{
}

/// The usual way to reconnect: ten attempts, at first after a second and at last after a
/// minute, each pause twice the one before.
pub proof fn the_usual_reconnecting_backs_off(c: ReconnectConfig)
    requires
        call_ensures(<ReconnectConfig as Default>::default, (), c),
    ensures
        c.enabled,
        c.max_attempts == 10,
        c.initial_delay == 1,
        c.max_delay == 60,
        c.backoff_multiplier_percent == 200,
{
}

/// A client that only knows its server connects to it for five seconds an attempt, as a
/// stranger; a text that is no URL is refused with the reason.
pub proof fn a_server_is_known_by_its_url(
    url: &str,
    r: Result<SignalingConfig, String>,
    usual: ReconnectConfig,
)
    requires
        call_ensures(SignalingConfig::for_url, (url,), r),
        call_ensures(<ReconnectConfig as Default>::default, (), usual),
    ensures
        r is Ok <==> encoding::url_of(url@) is Ok,
        r matches Ok(c) ==> encoding::url_of(url@) == Ok::<Seq<char>, Seq<char>>(c.server_url@)
            && c.connection_timeout == 5 && c.heartbeat_interval == 30 && c.reconnect_config
            == usual && c.auth_config is None && c.webrtc_role is None,
        r matches Err(e) ==> encoding::url_of(url@) == Err::<Seq<char>, Seq<char>>(e@),
{
}

/// The counters that are handed out are those that are kept.
pub proof fn counters_are_handed_out_as_they_stand(
    c: WebSocketSignalingClient,
    s: SignalingStats,
    t: SignalingStats,
)
    requires
        call_ensures(WebSocketSignalingClient::get_stats, (&c,), s),
        call_ensures(AtomicSignalingStats::snapshot, (&c.stats,), t),
    ensures
        s == t,
        s.connections == c.stats.connections,
        s.disconnections == c.stats.disconnections,
        s.messages_sent == c.stats.messages_sent,
        s.messages_received == c.stats.messages_received,
        s.heartbeats_sent == c.stats.heartbeats_sent,
        s.heartbeats_received == c.stats.heartbeats_received,
        s.errors == c.stats.errors,
{
}

/// Only the first hook is installed, and the reconnect manager is started once, and only where
/// the client reconnects by itself. Neither changes anything else.
pub proof fn hook_and_manager_come_once(
    c: &mut WebSocketSignalingClient,
    d: &mut WebSocketSignalingClient,
    e: &mut WebSocketSignalingClient,
    f: &mut WebSocketSignalingClient,
    first: bool,
    second: bool,
    started: bool,
    again: bool,
    runs: bool,
)
    requires
        call_ensures(WebSocketSignalingClient::set_hook_callback, (c,), first),
        *old(d) == *final(c),
        call_ensures(WebSocketSignalingClient::set_hook_callback, (d,), second),
        call_ensures(WebSocketSignalingClient::start_reconnect_manager, (e,), started),
        *old(f) == *final(e),
        call_ensures(WebSocketSignalingClient::start_reconnect_manager, (f,), again),
        call_ensures(WebSocketSignalingClient::manager_runs_cycle, (&*old(e),), runs),
    ensures
        first <==> !old(c).hook_installed,
        !second,
        *final(d) == *final(c),
        final(c).connected == old(c).connected && final(c).stats == old(c).stats,
        runs <==> old(e).config.reconnect_config.enabled,
        started <==> runs && !old(e).reconnector_started,
        !again,
        *final(f) == *final(e),
        final(e).connected == old(e).connected && final(e).stats == old(e).stats,
{
}

/// Envelopes are numbered from one on, and the number is in the id. An envelope carries what it
/// is given, answers none, and changes nothing but the number.
pub proof fn envelopes_are_numbered(
    c: &mut WebSocketSignalingClient,
    flow: Flow,
    seconds: i64,
    e: SignalingEnvelope,
)
    requires
        old(c).envelope_counter < u64::MAX,
        call_ensures(WebSocketSignalingClient::create_envelope_at, (c, flow, seconds), e) || (
        call_ensures(WebSocketSignalingClient::create_envelope, (c, flow), e)
            && e.timestamp_seconds == seconds),
    ensures
        e.envelope_id@ == "env-"@ + text::decimal((old(c).envelope_counter + 1) as nat),
        final(c).envelope_counter == old(c).envelope_counter + 1,
        e.flow == flow,
        e.reply_for is None,
        e.timestamp_seconds == seconds && e.timestamp_nanos == 0,
        e.envelope_version == 1,
        e.traceparent is None && e.tracestate is None,
        *old(c) == (WebSocketSignalingClient {
            envelope_counter: old(c).envelope_counter,
            ..*final(c)
        }),
{
}

/// The id that is handed out next is that of the envelope that would be made.
pub proof fn ids_are_handed_out_in_order(c: &mut WebSocketSignalingClient, id: String)
    requires
        old(c).envelope_counter < u64::MAX,
        call_ensures(WebSocketSignalingClient::next_envelope_id, (c,), id),
    ensures
        id@ == "env-"@ + text::decimal((old(c).envelope_counter + 1) as nat),
        final(c).envelope_counter == old(c).envelope_counter + 1,
        final(c).pending_replies == old(c).pending_replies,
{
}

/// A client names itself in the query exactly as far as it is known: its identity, then the
/// three parts of its credential, then the role that it prefers.
pub proof fn a_client_names_itself_as_far_as_it_is_known(
    c: WebSocketSignalingClient,
    pairs: Vec<(String, String)>,
)
    requires
        fits_url(c.credential),
        call_ensures(WebSocketSignalingClient::identity_query, (&c,), pairs),
    ensures
        ({
            let named = if c.actor_id is Some {
                1int
            } else {
                0
            };
            let proven = if c.credential is Some {
                3int
            } else {
                0
            };
            let inclined = if c.config.webrtc_role is Some {
                1int
            } else {
                0
            };
            &&& pairs@.len() == named + proven + inclined
            &&& c.actor_id matches Some(id) ==> pairs@[0].0@ == "actor_id"@ && pairs@[0].1@ == id@
            &&& c.credential matches Some(k) ==> {
                &&& pairs@[named].0@ == "key_id"@
                &&& pairs@[named].1@ == text::decimal(k.key_id as nat)
                &&& pairs@[named + 1].0@ == "claims"@
                &&& pairs@[named + 1].1@ == encoding::base64_of(k.claims@)
                &&& pairs@[named + 2].0@ == "signature"@
                &&& pairs@[named + 2].1@ == encoding::base64_of(k.signature@)
            }
            &&& c.config.webrtc_role matches Some(role) ==> pairs@.last().0@ == "webrtc_role"@
                && pairs@.last().1@ == role@
        }),
{
    let texts = encoding::pair_texts(pairs@);
    assert(texts.len() == pairs@.len());
    assert forall|i: int| 0 <= i < pairs@.len() implies texts[i] == (
        #[trigger] pairs@[i].0@,
        pairs@[i].1@,
    ) by {}
    if pairs@.len() > 0 {
        assert(texts[pairs@.len() - 1] == (pairs@.last().0@, pairs@.last().1@));
        assert(texts[0] == (pairs@[0].0@, pairs@[0].1@));
    }
    if c.credential is Some {
        let named = if c.actor_id is Some {
            1int
        } else {
            0
        };
        assert(texts[named] == (pairs@[named].0@, pairs@[named].1@));
        assert(texts[named + 1] == (pairs@[named + 1].0@, pairs@[named + 1].1@));
        assert(texts[named + 2] == (pairs@[named + 2].0@, pairs@[named + 2].1@));
    }
}

/// The URL that is connected to is the server's with those pairs appended one by one; that of
/// a client that is nobody is the server's own.
pub proof fn the_url_is_the_servers_with_the_query(
    c: WebSocketSignalingClient,
    r: Option<Result<String, String>>,
    pairs: Vec<(String, String)>,
    url: &str,
    appended: Option<Result<String, String>>,
)
    requires
        call_ensures(WebSocketSignalingClient::build_url_with_identity, (&c,), r),
        fits_url(c.credential),
        call_ensures(WebSocketSignalingClient::identity_query, (&c,), pairs),
        url@ == c.config.server_url@,
        call_ensures(append_pairs, (url, &pairs), appended),
    ensures
        r is Some <==> appended is Some,
        r is Some ==> (r->0 is Ok <==> appended->0 is Ok) && (r->0 is Ok ==> r->0->Ok_0@
            == appended->0->Ok_0@),
        c.actor_id is None && c.credential is None && c.config.webrtc_role is None ==> (r matches
            Some(Ok(u)) && u@ == c.config.server_url@),
{
    assert(encoding::pair_texts(pairs@).len() == pairs@.len());
    if c.actor_id is None && c.credential is None && c.config.webrtc_role is None {
        assert(identity_pairs(c.actor_id, c.credential, c.config.webrtc_role).len() == 0);
    }
}

/// An attempt is limited to the time that is set, and not limited where none is.
pub proof fn an_attempt_is_limited_as_set(c: WebSocketSignalingClient, r: Option<u64>)
    requires
        call_ensures(WebSocketSignalingClient::attempt_timeout, (&c,), r),
    ensures
        r is None <==> c.config.connection_timeout == 0,
        r is Some ==> r->0 == c.config.connection_timeout,
{
}

/// An attempt succeeds exactly if a socket was opened. Then the client is connected, can send
/// and can be read from, has been heard of just now, and the hook and the subscribers are told
/// so. Otherwise nothing changes, and it is said why.
pub proof fn an_opened_socket_connects(
    c: &mut WebSocketSignalingClient,
    outcome: AttemptOutcome,
    now: u64,
    r: NetworkResult<Announcement>,
    up: bool,
    sendable: NetworkResult<()>,
)
    requires
        call_ensures(WebSocketSignalingClient::attempt_finished, (c, outcome, now), r),
        call_ensures(WebSocketSignalingClient::is_connected, (&*final(c),), up),
        call_ensures(WebSocketSignalingClient::send_envelope, (&*final(c),), sendable),
    ensures
        r is Ok <==> outcome is Opened,
        r matches Ok(told) ==> told.hook is SignalingConnected && told.event is Connected && up
            && sendable is Ok && final(c).has_stream && final(c).last_pong == now,
        r is Err ==> *final(c) == *old(c),
        outcome matches AttemptOutcome::Failed(e) ==> r->Err_0 == e,
        outcome is TimedOut ==> (r matches Err(NetworkError::ConnectionError(m)) && m@
            == "Signaling connect timeout after "@ + text::decimal(
            old(c).config.connection_timeout as nat,
        ) + "s"@),
        final(c).stats == old(c).stats,
        final(c).pending_replies == old(c).pending_replies,
        final(c).envelope_counter == old(c).envelope_counter,
        final(c).actor_id == old(c).actor_id && final(c).credential == old(c).credential,
{
}

/// What holds of an attempt at a given time holds of one at the present time.
pub proof fn an_attempt_now_ends_like_any_other(
    c: &mut WebSocketSignalingClient,
    outcome: AttemptOutcome,
    r: NetworkResult<Announcement>,
)
    requires
        call_ensures(WebSocketSignalingClient::establish_connection_once, (c, outcome), r),
    ensures
        r is Ok <==> outcome is Opened,
        r matches Ok(told) ==> told.hook is SignalingConnected && told.event is Connected
            && final(c).connected && final(c).has_sink && final(c).has_stream,
        r is Err ==> *final(c) == *old(c),
        outcome matches AttemptOutcome::Failed(e) ==> r->Err_0 == e,
        final(c).stats == old(c).stats,
{
}

/// A connection that was told counts as one more; a lost one is not counted there.
pub proof fn a_told_connection_counts(c: &mut WebSocketSignalingClient)
    requires
        call_ensures(WebSocketSignalingClient::connection_told, (c,), ()),
    ensures
        final(c).stats.connections == (old(c).stats.connections + 1) % 0x1_0000_0000_0000_0000,
        *old(c) == (WebSocketSignalingClient {
            stats: AtomicSignalingStats {
                connections: old(c).stats.connections,
                ..final(c).stats
            },
            ..*final(c)
        }),
{
}

/// Of several tasks that connect one does, and the others wait for it; nobody does once the
/// client is connected.
pub proof fn one_task_connects(
    c: &mut WebSocketSignalingClient,
    d: &mut WebSocketSignalingClient,
    first: ConnectPlan,
    second: ConnectPlan,
)
    requires
        call_ensures(WebSocketSignalingClient::connect, (c,), first),
        *old(d) == *final(c),
        call_ensures(WebSocketSignalingClient::connect, (d,), second),
    ensures
        first is AlreadyConnected <==> old(c).connected,
        first is Establish <==> !old(c).connected && !old(c).connecting,
        first is Establish ==> second is WaitForOther,
        !(first is Establish) ==> *final(c) == *old(c) && second == first,
        !(second is Establish),
        final(c).connected == old(c).connected && final(c).stats == old(c).stats,
{
}

/// Once connecting has ended another task can connect again. A success starts the tasks; a
/// failure is told to those who wait, with its words.
pub proof fn the_end_of_connecting_is_told(
    c: &mut WebSocketSignalingClient,
    failure: Option<String>,
    e: ConnectEnd,
)
    requires
        call_ensures(WebSocketSignalingClient::connect_finished, (c, failure), e),
    ensures
        !final(c).connecting,
        e is StartTasks <==> failure is None,
        failure matches Some(words) ==> e == ConnectEnd::Tell(
            SignalingEvent::Disconnected { reason: DisconnectReason::ConnectionFailed(words) },
        ),
        *old(c) == (WebSocketSignalingClient { connecting: old(c).connecting, ..*final(c) }),
{
}

/// Waiting for another task's connection ends well once that stands, and badly when the time is
/// up without it or no more events will come. Otherwise it goes on.
pub proof fn waiting_ends_with_the_connection(
    c: WebSocketSignalingClient,
    event: WaitEvent,
    r: Option<NetworkResult<()>>,
)
    requires
        call_ensures(WebSocketSignalingClient::wait_for_connection_result, (&c, event), r),
    ensures
        (r matches Some(Ok(_))) <==> (event matches WaitEvent::Event(e) && e is Connected) || ((event
            is Deadline || event is Lagged) && c.connected),
        (r matches Some(Err(_))) <==> event is Closed || (event is Deadline && !c.connected),
        r matches Some(Err(e)) ==> (e matches NetworkError::ConnectionError(m) && m@ == if event
            is Closed {
            "Event channel closed while waiting for connection"@
        } else {
            "Timeout waiting for concurrent connection attempt"@
        }),
{
}

/// Disconnecting always succeeds, stops whatever runs, drops what was not read, and tells the
/// hook and the subscribers that it was asked for. The client is not connected afterwards and
/// cannot send; who it is and who waits for replies stays.
pub proof fn disconnecting_stops_and_tells(
    c: &mut WebSocketSignalingClient,
    r: NetworkResult<DisconnectPlan>,
    up: bool,
    sendable: NetworkResult<()>,
)
    requires
        call_ensures(WebSocketSignalingClient::disconnect, (c,), r),
        call_ensures(WebSocketSignalingClient::is_connected, (&*final(c),), up),
        call_ensures(WebSocketSignalingClient::send_envelope, (&*final(c),), sendable),
    ensures
        r is Ok,
        r->Ok_0.close_sink <==> old(c).has_sink,
        r->Ok_0.abort_receiver <==> old(c).receiver_running,
        r->Ok_0.abort_ping <==> old(c).ping_running,
        r->Ok_0.reset_inbound,
        r->Ok_0.announcement.hook is SignalingDisconnected,
        r->Ok_0.announcement.event matches SignalingEvent::Disconnected { reason } && reason
            is Manual,
        !up && sendable is Err,
        !final(c).has_sink && !final(c).has_stream && !final(c).receiver_running
            && !final(c).ping_running,
        final(c).stats.disconnections == (old(c).stats.disconnections + 1)
            % 0x1_0000_0000_0000_0000,
        final(c).stats.connections == old(c).stats.connections,
        final(c).stats.errors == old(c).stats.errors,
        final(c).pending_replies == old(c).pending_replies,
        final(c).actor_id == old(c).actor_id && final(c).credential == old(c).credential,
        final(c).connecting == old(c).connecting,
        final(c).envelope_counter == old(c).envelope_counter,
{
}

/// What was sent, and what could not be handed on, counts as one more of its kind and changes
/// nothing else.
pub proof fn what_happened_is_counted_once(
    c: &mut WebSocketSignalingClient,
    d: &mut WebSocketSignalingClient,
)
    requires
        call_ensures(WebSocketSignalingClient::envelope_sent, (c,), ()),
        call_ensures(WebSocketSignalingClient::delivery_failed, (d,), ()),
    ensures
        final(c).stats.messages_sent == (old(c).stats.messages_sent + 1) % 0x1_0000_0000_0000_0000,
        *old(c) == (WebSocketSignalingClient {
            stats: AtomicSignalingStats {
                messages_sent: old(c).stats.messages_sent,
                ..final(c).stats
            },
            ..*final(c)
        }),
        final(d).stats.errors == (old(d).stats.errors + 1) % 0x1_0000_0000_0000_0000,
        *old(d) == (WebSocketSignalingClient {
            stats: AtomicSignalingStats { errors: old(d).stats.errors, ..final(d).stats },
            ..*final(d)
        }),
{
}

/// A reply to an envelope that is waited for is delivered to whoever waits, once; an envelope
/// that nobody waits for goes to the inbound channel. Both count as received, and as a sign of
/// life.
pub proof fn an_awaited_reply_is_delivered_once(
    c: &mut WebSocketSignalingClient,
    d: &mut WebSocketSignalingClient,
    e: &mut WebSocketSignalingClient,
    request: SignalingEnvelope,
    waiter: u64,
    reply: SignalingEnvelope,
    now: u64,
    later: u64,
    first: ReceiveAction,
    second: ReceiveAction,
)
    requires
        call_ensures(WebSocketSignalingClient::await_reply, (c, &request, waiter), ()),
        *old(d) == *final(c),
        reply.reply_for matches Some(id) && id@ == request.envelope_id@,
        call_ensures(
            WebSocketSignalingClient::receive_frame,
            (d, InboundFrame::Binary(Some(reply)), now),
            first,
        ),
        *old(e) == *final(d),
        call_ensures(
            WebSocketSignalingClient::receive_frame,
            (e, InboundFrame::Binary(Some(reply)), later),
            second,
        ),
    ensures
        first == (ReceiveAction::Deliver { waiter, envelope: reply }),
        second == (ReceiveAction::Forward { envelope: reply }),
        final(d).last_pong == now && final(e).last_pong == later,
        final(d).stats.messages_received == (old(d).stats.messages_received + 1)
            % 0x1_0000_0000_0000_0000,
        final(d).connected == old(d).connected,
        final(c).stats == old(c).stats && final(c).connected == old(c).connected,
{
}

/// Octets, pings and pongs are signs of life, and nothing else is. What cannot be decoded, or
/// read, counts as an error; only a failure to read ends the stream. A frame never changes
/// whether the client is connected.
pub proof fn frames_are_signs_of_life(
    c: &mut WebSocketSignalingClient,
    frame: InboundFrame,
    now: u64,
    a: ReceiveAction,
    id: Seq<char>,
)
    requires
        call_ensures(WebSocketSignalingClient::receive_frame, (c, frame, now), a),
    ensures
        a is Terminate <==> frame is Failed,
        frame is Binary || frame is Ping || frame is Pong ==> final(c).last_pong == now,
        frame is Other || frame is Failed ==> final(c).last_pong == old(c).last_pong,
        (a is Deliver || a is Forward) <==> (frame matches InboundFrame::Binary(Some(_))),
        a matches ReceiveAction::Deliver { waiter, envelope } ==> frame == InboundFrame::Binary(
            Some(envelope),
        ) && envelope.reply_for is Some && old(c).pending_replies@.contains_key(
            envelope.reply_for->0@,
        ) && waiter == old(c).pending_replies@[envelope.reply_for->0@],
        a matches ReceiveAction::Forward { envelope } ==> frame == InboundFrame::Binary(
            Some(envelope),
        ) && (envelope.reply_for matches Some(r) ==> !old(c).pending_replies@.contains_key(r@)),
        final(c).stats.errors == if frame is Failed || frame == InboundFrame::Binary(None) {
            (old(c).stats.errors + 1) % 0x1_0000_0000_0000_0000
        } else {
            old(c).stats.errors as int
        },
        final(c).stats.messages_received == if frame matches InboundFrame::Binary(Some(_)) {
            (old(c).stats.messages_received + 1) % 0x1_0000_0000_0000_0000
        } else {
            old(c).stats.messages_received as int
        },
        final(c).connected == old(c).connected && final(c).has_sink == old(c).has_sink,
        final(c).stats.connections == old(c).stats.connections,
        final(c).stats.disconnections == old(c).stats.disconnections,
        !(a is Deliver) ==> final(c).pending_replies@ == old(c).pending_replies@,
        (a matches ReceiveAction::Deliver { envelope, .. } && envelope.reply_for->0@ != id) ==> (
        final(c).pending_replies@.contains_key(id) <==> old(c).pending_replies@.contains_key(id)),
{
}

/// A frame at the present time is dealt with like one at any other.
pub proof fn a_frame_now_is_like_any_other(
    c: &mut WebSocketSignalingClient,
    frame: InboundFrame,
    a: ReceiveAction,
)
    requires
        call_ensures(WebSocketSignalingClient::receive, (c, frame), a),
    ensures
        a is Terminate <==> frame is Failed,
        (a is Deliver || a is Forward) <==> (frame matches InboundFrame::Binary(Some(_))),
        a matches ReceiveAction::Deliver { waiter, envelope } ==> frame == InboundFrame::Binary(
            Some(envelope),
        ) && envelope.reply_for is Some && old(c).pending_replies@.contains_key(
            envelope.reply_for->0@,
        ) && waiter == old(c).pending_replies@[envelope.reply_for->0@],
        a matches ReceiveAction::Forward { envelope } ==> frame == InboundFrame::Binary(
            Some(envelope),
        ) && (envelope.reply_for matches Some(r) ==> !old(c).pending_replies@.contains_key(r@)),
        frame is Other || frame is Failed ==> final(c).last_pong == old(c).last_pong,
        final(c).connected == old(c).connected,
{
}

/// Waiting for a reply ends with the reply, or with the reason why there is none. Whoever
/// waited is forgotten if the envelope was not sent or the time was up; others are not.
pub proof fn waiting_for_a_reply_ends_with_it(
    c: &mut WebSocketSignalingClient,
    d: &mut WebSocketSignalingClient,
    reply_for: &str,
    outcome: ReplyOutcome,
    r: NetworkResult<SignalingEnvelope>,
    beat: NetworkResult<SignalingEnvelope>,
    id: Seq<char>,
)
    requires
        call_ensures(
            WebSocketSignalingClient::send_envelope_and_wait_response,
            (c, reply_for, outcome),
            r,
        ),
        *old(d) == *old(c),
        call_ensures(WebSocketSignalingClient::heartbeat_response, (d, reply_for, outcome), beat),
    ensures
        r is Ok <==> outcome is Reply,
        beat is Ok <==> outcome is Reply,
        outcome matches ReplyOutcome::Reply(envelope) ==> r->Ok_0 == envelope && beat->Ok_0
            == envelope,
        outcome matches ReplyOutcome::SendFailed(e) ==> r->Err_0 == e && beat->Err_0 == e,
        outcome is TimedOut || outcome is Dropped ==> r->Err_0 is ConnectionError && beat->Err_0
            is ConnectionError,
        outcome is TimedOut ==> r->Err_0->ConnectionError_0@
            == "Timed out waiting for signaling response"@,
        outcome is Dropped ==> r->Err_0->ConnectionError_0@
            == "Receiver dropped while waiting for signaling response"@,
        outcome is TimedOut ==> beat->Err_0->ConnectionError_0@
            == "Timed out waiting for heartbeat response"@,
        outcome is Dropped ==> beat->Err_0->ConnectionError_0@
            == "Receiver dropped while waiting for heartbeat response"@,
        final(c).pending_replies@ == final(d).pending_replies@,
        final(c).pending_replies@.contains_key(reply_for@) <==> old(
            c,
        ).pending_replies@.contains_key(reply_for@) && !(outcome is SendFailed || outcome
            is TimedOut),
        id != reply_for@ ==> (final(c).pending_replies@.contains_key(id) <==> old(
            c,
        ).pending_replies@.contains_key(id)),
        final(c).connected == old(c).connected && final(c).stats == old(c).stats,
        final(d).connected == old(d).connected && final(d).stats == old(d).stats,
{
}

/// The socket's stream is read by one receiver: starting again finds none.
pub proof fn a_stream_has_one_receiver(
    c: &mut WebSocketSignalingClient,
    d: &mut WebSocketSignalingClient,
    first: bool,
    second: bool,
)
    requires
        call_ensures(WebSocketSignalingClient::start_receiver, (c,), first),
        *old(d) == *final(c),
        call_ensures(WebSocketSignalingClient::start_receiver, (d,), second),
    ensures
        first <==> old(c).has_stream,
        !second,
        first ==> final(c).receiver_running,
        !first ==> *final(c) == *old(c),
        *final(d) == *final(c),
        final(c).connected == old(c).connected && final(c).stats == old(c).stats,
{
}

/// A stream that ends loses the connection: that is counted and told, and where the client
/// reconnects by itself its manager is woken. The socket to write to, and who waits, stays.
pub proof fn the_end_of_the_stream_loses_the_connection(
    c: &mut WebSocketSignalingClient,
    l: Loss,
    up: bool,
    runs: bool,
)
    requires
        call_ensures(WebSocketSignalingClient::stream_terminated, (c,), l),
        call_ensures(WebSocketSignalingClient::is_connected, (&*final(c),), up),
        call_ensures(WebSocketSignalingClient::manager_runs_cycle, (&*old(c),), runs),
    ensures
        !up,
        l.wake_reconnect <==> runs,
        l.event matches SignalingEvent::Disconnected { reason } && reason is StreamEnded,
        final(c).stats.disconnections == (old(c).stats.disconnections + 1)
            % 0x1_0000_0000_0000_0000,
        final(c).stats.connections == old(c).stats.connections,
        final(c).has_sink == old(c).has_sink,
        final(c).pending_replies == old(c).pending_replies,
{
}

/// A ping task is started unless one still runs, and then one runs.
pub proof fn one_ping_task_runs(c: &mut WebSocketSignalingClient, finished: bool, start: bool)
    requires
        call_ensures(WebSocketSignalingClient::start_ping_task, (c, finished), start),
    ensures
        !start <==> old(c).ping_running && !finished,
        *final(c) == (WebSocketSignalingClient { ping_running: true, ..*old(c) }),
{
}

/// While the client is connected a ping is sent every five seconds. The connection is lost if a
/// ping cannot be sent, or if one was sent and nothing has been heard for more than ten seconds;
/// then the client is not connected, subscribers are told why, and the manager is woken where
/// there is one. The task ends once the client is not connected.
pub proof fn silence_loses_the_connection(
    c: &mut WebSocketSignalingClient,
    event: PingEvent,
    a: PingAction,
    runs: bool,
)
    requires
        call_ensures(WebSocketSignalingClient::ping_step, (c, event), a),
        call_ensures(WebSocketSignalingClient::manager_runs_cycle, (&*old(c),), runs),
    ensures
        a is Stop <==> event is Tick && !old(c).connected,
        a is SendPing <==> event is Tick && old(c).connected && old(c).has_sink,
        a is Sleep <==> (event matches PingEvent::Sent { now } && now <= old(c).last_pong + 10),
        a is Sleep ==> a == (PingAction::Sleep { secs: 5 }),
        !(a is Lost) ==> *final(c) == *old(c),
        a matches PingAction::Lost { loss, abort_receiver } ==> {
            &&& !final(c).connected
            &&& loss.wake_reconnect <==> runs
            &&& loss.event matches SignalingEvent::Disconnected { reason } && (reason is PongTimeout
                <==> event is Sent) && (reason is PingSendFailed <==> !(event is Sent))
            &&& abort_receiver <==> event is Sent && old(c).receiver_running
            &&& event is Sent ==> !final(c).receiver_running
            &&& !(event is Sent) ==> final(c).receiver_running == old(c).receiver_running
        },
        final(c).stats == old(c).stats,
        final(c).has_sink == old(c).has_sink,
        final(c).last_pong == old(c).last_pong,
        final(c).pending_replies == old(c).pending_replies,
{
}

/// A ping that was sent now keeps the connection or loses it to silence, and nothing else.
pub proof fn a_ping_now_keeps_or_loses(c: &mut WebSocketSignalingClient, a: PingAction)
    requires
        call_ensures(WebSocketSignalingClient::ping_sent, (c,), a),
    ensures
        a is Sleep || a is Lost,
        a is Sleep ==> *final(c) == *old(c),
        a matches PingAction::Lost { loss, abort_receiver } ==> !final(c).connected && (
        loss.event matches SignalingEvent::Disconnected { reason } && reason is PongTimeout)
            && abort_receiver == old(c).receiver_running,
{
}

/// An inbound envelope is handed on as it is; a channel that is closed is an error.
pub proof fn inbound_envelopes_are_handed_on(
    c: WebSocketSignalingClient,
    item: Option<SignalingEnvelope>,
    r: NetworkResult<Option<SignalingEnvelope>>,
)
    requires
        call_ensures(WebSocketSignalingClient::receive_envelope, (&c, item), r),
    ensures
        r is Ok <==> item is Some,
        r is Ok ==> r->Ok_0 == item,
        r matches Err(e) ==> (e matches NetworkError::ConnectionError(m) && m@
            == "Inbound channel closed"@),
{
}

/// A client is in the state of its connection.
pub proof fn the_state_is_that_of_the_connection(
    c: WebSocketSignalingClient,
    up: bool,
    state: ConnectionState,
)
    requires
        call_ensures(WebSocketSignalingClient::is_connected, (&c,), up),
        call_ensures(WebSocketSignalingClient::connection_state, (&c,), state),
    ensures
        up <==> c.connected,
        state is Connected <==> up,
        state is Disconnected <==> !up,
{
}

/// Identity and credential are told as they were set last, and both are forgotten together.
/// Nothing else depends on them.
pub proof fn identity_is_set_and_forgotten(
    c: &mut WebSocketSignalingClient,
    d: &mut WebSocketSignalingClient,
    e: &mut WebSocketSignalingClient,
    actor_id: String,
    credential: AIdCredential,
)
    requires
        call_ensures(WebSocketSignalingClient::set_actor_id, (c, actor_id), ()),
        *old(d) == *final(c),
        call_ensures(WebSocketSignalingClient::set_credential_state, (d, credential), ()),
        *old(e) == *final(d),
        call_ensures(WebSocketSignalingClient::clear_identity, (e,), ()),
    ensures
        final(d).actor_id == Some(actor_id) && final(d).credential == Some(credential),
        final(c).credential == old(c).credential,
        final(e).actor_id is None && final(e).credential is None,
        *final(e) == (WebSocketSignalingClient { actor_id: None, credential: None, ..*old(c) }),
{
}

/// Counting starts at nothing.
pub proof fn counting_starts_at_nothing(s: AtomicSignalingStats)
    requires
        call_ensures(<AtomicSignalingStats as Default>::default, (), s),
    ensures
        s.connections == 0 && s.disconnections == 0,
        s.messages_sent == 0 && s.messages_received == 0,
        s.heartbeats_sent == 0 && s.heartbeats_received == 0,
        s.errors == 0,
{
}

/// An envelope is sent only over a connection that stands and has a socket to write to; the error
/// tells which of the two is missing.
pub proof fn one_sends_only_while_connected(
    c: WebSocketSignalingClient,
    r: NetworkResult<()>,
    up: bool,
)
    requires
        call_ensures(WebSocketSignalingClient::send_envelope, (&c,), r),
        call_ensures(WebSocketSignalingClient::is_connected, (&c,), up),
    ensures
        r is Ok <==> up && c.has_sink,
        !up ==> (r matches Err(NetworkError::ConnectionError(m)) && m@
            == "Cannot send: WebSocket not connected"@),
        up && !c.has_sink ==> (r matches Err(NetworkError::ConnectionError(m)) && m@
            == "Not connected"@),
{
}

}
