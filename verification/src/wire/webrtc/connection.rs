//! A peer-to-peer connection: its session, its cached channels and lanes, and its
//! media tracks.
//!
//! Channels, tracks and senders are known by handles. Whoever holds the engine's
//! objects gives each a handle and performs the returned actions on them.
use crate::error::{NetworkError, NetworkResult};
use crate::protocol::{ActrId, PayloadType};
use crate::text;
use crate::text::{capitals, contains, join, join3, same};
use crate::transport::lane::ChannelState;
use crate::wire::webrtc::signaling::HookEvent;
use vstd::hash_map::StringHashMap;
use vstd::prelude::*;
use vstd::string::StringExecFns;

verus! {

/// The payload types that have a channel of their own.
pub const CHANNEL_SLOTS: usize = 4;

/// How many received messages a lane holds before its channel waits.
pub const LANE_QUEUE_CAPACITY: usize = 100;

/// How long a hook may take, in seconds.
pub const HOOK_TIMEOUT_SECS: u64 = 5;

/// How often a channel's send buffer is looked at before it is given up.
pub const DRAIN_MAX_POLLS: u32 = 50;

/// The pause between two looks at a send buffer.
pub const DRAIN_POLL_MILLIS: u64 = 100;

/// The state that the engine reports of a peer connection.
#[derive(Debug, Clone, Copy, PartialEq, Eq, Structural)]
pub enum PeerState {
    Unspecified,
    New,
    Connecting,
    Connected,
    Disconnected,
    Failed,
    Closed,
}

/// The state that upper layers are told of.
#[derive(Debug, Clone, Copy, PartialEq, Eq, Structural)]
pub enum ConnectionState {
    New,
    Connecting,
    Connected,
    Disconnected,
    Failed,
    Closed,
}

impl PeerState {
    /// The peer counts as connected until it is lost.
    pub open spec fn spec_is_up(self) -> bool {
        self is New || self is Connecting || self is Connected
    }

    /// The state that upper layers are told of.
    pub open spec fn spec_connection_state(self) -> ConnectionState {
        match self {
            PeerState::New => ConnectionState::New,
            PeerState::Connecting => ConnectionState::Connecting,
            PeerState::Connected => ConnectionState::Connected,
            PeerState::Disconnected => ConnectionState::Disconnected,
            PeerState::Failed => ConnectionState::Failed,
            PeerState::Closed => ConnectionState::Closed,
            PeerState::Unspecified => ConnectionState::Closed,
        }
    }

    /// Whether the peer counts as connected.
    pub fn is_up(self) -> (r: bool)
        ensures
            r == self.spec_is_up(),
    {
        match self {
            PeerState::New | PeerState::Connecting | PeerState::Connected => true,
            _ => false,
        }
    }

    /// The state that upper layers are told of.
    pub fn connection_state(self) -> (s: ConnectionState)
        ensures
            s == self.spec_connection_state(),
    {
        match self {
            PeerState::New => ConnectionState::New,
            PeerState::Connecting => ConnectionState::Connecting,
            PeerState::Connected => ConnectionState::Connected,
            PeerState::Disconnected => ConnectionState::Disconnected,
            PeerState::Failed => ConnectionState::Failed,
            PeerState::Closed => ConnectionState::Closed,
            PeerState::Unspecified => ConnectionState::Closed,
        }
    }
}

/// What upper layers are told.
#[derive(Debug, Clone)]
pub enum ConnectionEvent {
    StateChanged { peer_id: ActrId, session_id: u64, state: ConnectionState },
    DataChannelOpened { peer_id: ActrId, session_id: u64, payload_type: PayloadType },
    DataChannelClosed { peer_id: ActrId, session_id: u64, payload_type: PayloadType },
    ConnectionClosed { peer_id: ActrId, session_id: u64 },
}

/// Which hook a state change calls.
#[derive(Debug)]
pub enum HookPlan {
    /// None.
    Skip,
    /// The hook is called with this event.
    Call(HookEvent),
    /// The selected candidate pair is looked up first; see
    /// [`WebRtcConnection::connected_hook`].
    LookUpPair,
}

/// What a state change sets off, in this order.
#[derive(Debug)]
pub struct StateChange {
    /// The event to broadcast.
    pub event: ConnectionEvent,
    /// The hook to call, where one is installed.
    pub hook: HookPlan,
    /// Whether to close the connection.
    pub close: bool,
}

/// How a data channel is set up.
#[derive(Debug, Clone, Copy, PartialEq, Eq, Structural)]
pub struct ChannelConfig {
    pub ordered: bool,
    pub max_retransmits: Option<u16>,
}

/// How a lane is come by.
#[derive(Debug, Clone, Copy, PartialEq, Eq, Structural)]
pub enum LanePlan {
    /// The cached lane over this channel is used.
    Reuse { channel: u64 },
    /// A channel is created and reported with
    /// [`WebRtcConnection::lane_created`].
    Create { config: ChannelConfig },
}

/// How a media track is come by.
#[derive(Debug)]
pub enum TrackPlan {
    /// The track that is there is used.
    Reuse { track: u64 },
    /// A track is created, added to the peer connection and reported with
    /// [`WebRtcConnection::media_track_added`].
    Create { mime_type: &'static str, stream_id: String },
}

/// What closing does next.
#[derive(Debug, Clone, Copy, PartialEq, Eq, Structural)]
pub enum CloseStep {
    /// The connection was closed before.
    AlreadyClosed,
    /// Send buffers are drained, then the peer connection is closed, and the
    /// outcome is reported with [`WebRtcConnection::peer_closed`].
    DrainAndClosePeer,
}

/// What a drain does next.
#[derive(Debug, Clone, Copy, PartialEq, Eq, Structural)]
pub enum DrainAction {
    /// Look at the send buffer of this channel.
    Query { channel: u64 },
    /// Pause, then look again.
    Sleep { millis: u64 },
    /// Nothing is left to drain.
    Done,
}

/// What happened in a drain.
#[derive(Debug, Clone, Copy, PartialEq, Eq, Structural)]
pub enum DrainEvent {
    /// The send buffer held this many octets.
    Buffered { amount: usize },
    /// The pause is over.
    Woke,
}

/// Draining send buffers, channel by channel.
#[derive(Debug)]
pub struct DrainTask {
    /// The channels that were open when the drain began.
    pub channels: Vec<u64>,
    /// The channel being drained.
    pub current: usize,
    /// The looks at its buffer so far.
    pub attempt: u32,
}

/// A look at the current channel's send buffer moves on to the next channel, or
/// counts.
pub open spec fn looked_at(before: DrainTask, amount: usize, after: DrainTask) -> bool {
    &&& after.channels == before.channels
    &&& if amount == 0 || before.attempt == DRAIN_MAX_POLLS - 1 {
        after.current == before.current + 1 && after.attempt == 0
    } else {
        after.current == before.current && after.attempt == before.attempt + 1
    }
}

impl DrainTask {
    /// The task counts within its bounds.
    pub open spec fn wf(&self) -> bool {
        self.current <= self.channels@.len() && self.attempt < DRAIN_MAX_POLLS
    }

    /// What is to be done for the channel that is current.
    pub open spec fn spec_action(&self) -> DrainAction {
        if self.current < self.channels@.len() {
            DrainAction::Query { channel: self.channels@[self.current as int] }
        } else {
            DrainAction::Done
        }
    }

    /// What is to be done for the channel that is current.
    pub fn action(&self) -> (a: DrainAction)
        ensures
            a == self.spec_action(),
    {
        if self.current < self.channels.len() {
            DrainAction::Query { channel: self.channels[self.current] }
        } else {
            DrainAction::Done
        }
    }

    /// Takes an event and says what to do next.
    ///
    /// An empty buffer, or the fiftieth look at one that is not empty, moves on to
    /// the next channel. Before that there is a pause of 100 ms between two looks.
    pub fn step(&mut self, event: DrainEvent) -> (a: DrainAction)
        requires
            old(self).wf(),
            old(self).current < old(self).channels@.len(),
        ensures
            final(self).wf(),
            match event {
                DrainEvent::Woke => *final(self) == *old(self) && a == final(self).spec_action(),
                DrainEvent::Buffered { amount } => {
                    &&& looked_at(*old(self), amount, *final(self))
                    &&& a == if final(self).attempt > 0 {
                        DrainAction::Sleep { millis: DRAIN_POLL_MILLIS }
                    } else {
                        final(self).spec_action()
                    }
                },
            },
    {
        match event {
            DrainEvent::Woke => self.action(),
            DrainEvent::Buffered { amount } => {
                if amount == 0 || self.attempt == DRAIN_MAX_POLLS - 1 {
                    assert(self.current < self.channels.len());
                    self.current = self.current + 1;
                    self.attempt = 0;
                    self.action()
                } else {
                    self.attempt = self.attempt + 1;
                    DrainAction::Sleep { millis: DRAIN_POLL_MILLIS }
                }
            },
        }
    }
}

/// What happened in the loop that forwards received messages.
#[derive(Debug)]
pub enum PumpEvent {
    /// The lane gave a message or failed.
    Received(NetworkResult<bytes::Bytes>),
    /// The message was taken over, or there was nobody to take it.
    Forwarded { taken: bool },
}

/// What the loop that forwards received messages does next.
#[derive(Debug)]
pub enum PumpAction {
    /// Receive from the lane.
    Receive,
    /// Forward the message with the sender's identity.
    Forward { data: bytes::Bytes, payload_type: PayloadType },
    /// End.
    Stop,
}

/// Forwards received messages until the lane fails or nobody takes them.
pub fn pump_step(payload_type: PayloadType, event: PumpEvent) -> (a: PumpAction)
    ensures
        match event {
            PumpEvent::Received(Ok(data)) => a == (PumpAction::Forward { data, payload_type }),
            PumpEvent::Received(Err(_)) => a is Stop,
            PumpEvent::Forwarded { taken } => if taken {
                a is Receive
            } else {
                a is Stop
            },
        },
{
    match event {
        PumpEvent::Received(Ok(data)) => PumpAction::Forward { data, payload_type },
        PumpEvent::Received(Err(_)) => PumpAction::Stop,
        PumpEvent::Forwarded { taken } => if taken {
            PumpAction::Receive
        } else {
            PumpAction::Stop
        },
    }
}

/// A media type and a codec, in capitals, that can be sent.
pub open spec fn mime_type_of(media_type: Seq<char>, codec: Seq<char>) -> Option<Seq<char>> {
    if media_type == "video"@ && codec == "H264"@ {
        Some("video/H264"@)
    } else if media_type == "video"@ && codec == "VP8"@ {
        Some("video/VP8"@)
    } else if media_type == "audio"@ && codec == "OPUS"@ {
        Some("audio/opus"@)
    } else {
        None
    }
}

/// The media type of a codec, given in capitals.
pub fn mime_type(media_type: &str, capital_codec: &str) -> (r: Option<&'static str>)
    ensures
        match r {
            Some(m) => mime_type_of(media_type@, capital_codec@) == Some(m@),
            None => mime_type_of(media_type@, capital_codec@) is None,
        },
{
    if same(media_type, "video") && same(capital_codec, "H264") {
        Some("video/H264")
    } else if same(media_type, "video") && same(capital_codec, "VP8") {
        Some("video/VP8")
    } else if same(media_type, "audio") && same(capital_codec, "OPUS") {
        Some("audio/opus")
    } else {
        None
    }
}

/// `rand::random`: any `u32`.
#[verifier::external_body]
fn random_u32() -> u32 {
    rand::random::<u32>()
}

/// A connection to one peer.
pub struct WebRtcConnection {
    /// The peer.
    pub peer_id: ActrId,
    /// The session that this connection is.
    pub session_id: u64,
    /// The session was closed; that happens once.
    pub session_closed: bool,
    /// The session's callbacks are to do nothing any more.
    pub session_cancelled: bool,
    /// The last reported state counts as connected.
    pub connected: bool,
    /// The channel of each payload type.
    pub data_channels: Vec<Option<u64>>,
    /// The channel under the cached lane of each payload type.
    pub lane_cache: Vec<Option<u64>>,
    /// Track and sender by track id.
    pub media_tracks: StringHashMap<(u64, u64)>,
    /// The next sequence number by track id.
    pub track_sequence_numbers: StringHashMap<u16>,
    /// The synchronisation source by track id.
    pub track_ssrcs: StringHashMap<u32>,
}

/// Four empty slots.
pub open spec fn no_slots() -> Seq<Option<u64>> {
    seq![None, None, None, None]
}

fn empty_slots() -> (v: Vec<Option<u64>>)
    ensures
        v@ == no_slots(),
{
    let mut v: Vec<Option<u64>> = Vec::new();
    v.push(None);
    v.push(None);
    v.push(None);
    v.push(None);
    assert(v@ =~= no_slots());
    v
}

/// The slot of a payload type that has one.
pub open spec fn slot(payload_type: PayloadType) -> int {
    payload_type.spec_code() as int
}

/// How a channel for this payload type is set up: latency first may lose and
/// reorder after three retransmissions, everything else arrives in order.
pub open spec fn channel_config(payload_type: PayloadType) -> ChannelConfig {
    if payload_type is StreamLatencyFirst {
        ChannelConfig { ordered: false, max_retransmits: Some(3) }
    } else {
        ChannelConfig { ordered: true, max_retransmits: None }
    }
}

/// What [`WebRtcConnection::close`] leaves behind.
pub open spec fn closing(c: WebRtcConnection) -> WebRtcConnection {
    if c.session_closed {
        c
    } else {
        WebRtcConnection {
            session_closed: true,
            session_cancelled: true,
            connected: false,
            ..c
        }
    }
}

/// A state change, as [`WebRtcConnection::handle_state_change`] makes it.
pub open spec fn state_changed(c: WebRtcConnection, state: PeerState) -> WebRtcConnection {
    if c.session_cancelled {
        c
    } else {
        WebRtcConnection { connected: state.spec_is_up(), ..c }
    }
}

/// How the lane of a payload type is come by, given the state of the channel under the
/// cached one: a cached lane is used unless its channel is closing or closed.
pub open spec fn gets_lane(
    before: WebRtcConnection,
    payload_type: PayloadType,
    cached_state: ChannelState,
    after: WebRtcConnection,
    r: NetworkResult<LanePlan>,
) -> bool {
    if payload_type is MediaRtp {
        &&& after == before
        &&& r matches Err(NetworkError::NotImplemented(m))
        &&& m@ == "MediaTrack Lane requires stream_id, use get_media_lane() instead"@
    } else {
        let i = slot(payload_type);
        let stale = cached_state is Closed || cached_state is Closing;
        match before.lane_cache@[i] {
            Some(channel) if !stale => {
                &&& after == before
                &&& r == Ok::<LanePlan, NetworkError>(LanePlan::Reuse { channel })
            },
            cached => {
                &&& r == Ok::<LanePlan, NetworkError>(
                    LanePlan::Create { config: channel_config(payload_type) },
                )
                &&& if cached is Some {
                    dropped(before, i, after)
                } else {
                    after == before
                }
            },
        }
    }
}

impl WebRtcConnection {
    /// Each cache has its four slots, every cached lane runs over the cached channel
    /// of its slot, and a closed session is cancelled.
    pub open spec fn wf(&self) -> bool {
        &&& self.data_channels@.len() == CHANNEL_SLOTS
        &&& self.lane_cache@.len() == CHANNEL_SLOTS
        &&& forall|i: int|
            0 <= i < CHANNEL_SLOTS && (#[trigger] self.lane_cache@[i]) is Some
                ==> self.data_channels@[i] == self.lane_cache@[i]
        &&& self.session_closed ==> self.session_cancelled
    }

    /// Nothing is cached.
    pub open spec fn is_bare(&self) -> bool {
        &&& self.data_channels@ == no_slots()
        &&& self.lane_cache@ == no_slots()
        &&& self.media_tracks@ == Map::<Seq<char>, (u64, u64)>::empty()
        &&& self.track_sequence_numbers@ == Map::<Seq<char>, u16>::empty()
        &&& self.track_ssrcs@ == Map::<Seq<char>, u32>::empty()
    }

    /// A connection that counts as connected and has nothing cached.
    pub fn new(peer_id: ActrId, session_id: u64) -> (c: Self)
        ensures
            c.wf(),
            c.is_bare(),
            c.peer_id == peer_id,
            c.session_id == session_id,
            !c.session_closed,
            !c.session_cancelled,
            c.connected,
    {
        WebRtcConnection {
            peer_id,
            session_id,
            session_closed: false,
            session_cancelled: false,
            connected: true,
            data_channels: empty_slots(),
            lane_cache: empty_slots(),
            media_tracks: StringHashMap::new(),
            track_sequence_numbers: StringHashMap::new(),
            track_ssrcs: StringHashMap::new(),
        }
    }

    /// The peer.
    pub fn peer_id(&self) -> (p: &ActrId)
        ensures
            *p == self.peer_id,
    {
        &self.peer_id
    }

    /// The session that this connection is.
    pub fn session_id(&self) -> (s: u64)
        ensures
            s == self.session_id,
    {
        self.session_id
    }

    /// Takes a state that the engine reports. A cancelled session ignores it.
    ///
    /// Otherwise upper layers are told, the hook for the state is called, and a peer
    /// that is closed while it still counted as connected closes the connection.
    pub fn handle_state_change(&mut self, state: PeerState) -> (r: Option<StateChange>)
        requires
            old(self).wf(),
        ensures
            final(self).wf(),
            *final(self) == state_changed(*old(self), state),
            if old(self).session_cancelled {
                r is None
            } else {
                &&& r matches Some(change)
                &&& change.event == (ConnectionEvent::StateChanged {
                    peer_id: old(self).peer_id,
                    session_id: old(self).session_id,
                    state: state.spec_connection_state(),
                })
                &&& match state.spec_connection_state() {
                    ConnectionState::New => change.hook is Skip,
                    ConnectionState::Connecting => change.hook == HookPlan::Call(
                        HookEvent::WebRtcConnectStart { peer_id: old(self).peer_id },
                    ),
                    ConnectionState::Connected => change.hook is LookUpPair,
                    _ => change.hook == HookPlan::Call(
                        HookEvent::WebRtcDisconnected { peer_id: old(self).peer_id },
                    ),
                }
                &&& change.close == (old(self).connected && state is Closed)
            },
    {
        if self.session_cancelled {
            return None;
        }
        let was_connected = self.connected;
        self.connected = state.is_up();
        let connection_state = state.connection_state();
        let event = ConnectionEvent::StateChanged {
            peer_id: self.peer_id.clone(),
            session_id: self.session_id,
            state: connection_state,
        };
        let hook = match connection_state {
            ConnectionState::New => HookPlan::Skip,
            ConnectionState::Connecting => HookPlan::Call(
                HookEvent::WebRtcConnectStart { peer_id: self.peer_id.clone() },
            ),
            ConnectionState::Connected => HookPlan::LookUpPair,
            _ => HookPlan::Call(
                HookEvent::WebRtcDisconnected { peer_id: self.peer_id.clone() },
            ),
        };
        let close = was_connected && state == PeerState::Closed;
        Some(StateChange { event, hook, close })
    }

    /// The hook event of a peer that is connected, given the text of the selected
    /// candidate pair: a pair that names a relay is relayed.
    pub fn connected_hook(&self, pair: Option<String>) -> (e: HookEvent)
        ensures
            e == (HookEvent::WebRtcConnected {
                peer_id: self.peer_id,
                relayed: match pair {
                    Some(pair) => text::occurs(pair@, "relay"@),
                    None => false,
                },
            }),
    {
        let relayed = match pair {
            Some(pair) => contains(pair.as_str(), "relay"),
            None => false,
        };
        HookEvent::WebRtcConnected { peer_id: self.peer_id.clone(), relayed }
    }

    /// Marks the connection as connected; signaling has set it up.
    pub fn connect(&mut self)
        ensures
            *final(self) == (WebRtcConnection { connected: true, ..*old(self) }),
    {
        self.connected = true;
    }

    /// Whether the session has not been closed.
    pub fn is_connected(&self) -> (r: bool)
        ensures
            r == !self.session_closed,
    {
        !self.session_closed
    }

    /// The cached channel of each payload type.
    pub fn data_channels(&self) -> (v: &Vec<Option<u64>>)
        ensures
            *v == self.data_channels,
    {
        &self.data_channels
    }

    /// Whether a cached channel is open, given the state of each slot's channel.
    pub fn has_open_data_channel(&self, states: &Vec<ChannelState>) -> (r: bool)
        requires
            self.wf(),
            states@.len() == CHANNEL_SLOTS,
        ensures
            r == exists|i: int|
                0 <= i < CHANNEL_SLOTS && (#[trigger] self.data_channels@[i]) is Some
                    && states@[i] is Open,
    {
        let mut i: usize = 0;
        while i < CHANNEL_SLOTS
            invariant
                self.wf(),
                states@.len() == CHANNEL_SLOTS,
                i <= CHANNEL_SLOTS,
                forall|k: int|
                    0 <= k < i && (#[trigger] self.data_channels@[k]) is Some ==> !(states@[k]
                        is Open),
            decreases CHANNEL_SLOTS - i,
        {
            if self.data_channels[i].is_some() && states[i] == ChannelState::Open {
                assert(self.data_channels@[i as int] is Some);
                return true;
            }
            i = i + 1;
        }
        false
    }

    /// The channels that are open among the first `n` slots.
    pub open spec fn open_channels(&self, states: Seq<ChannelState>, n: int) -> Seq<u64>
        decreases n,
    {
        if n <= 0 {
            Seq::empty()
        } else {
            let before = self.open_channels(states, n - 1);
            match self.data_channels@[n - 1] {
                Some(channel) => if states[n - 1] is Open {
                    before.push(channel)
                } else {
                    before
                },
                None => before,
            }
        }
    }

    /// Begins to drain the open channels, given the state of each slot's channel.
    pub fn drain_data_channels(&self, states: &Vec<ChannelState>) -> (t: DrainTask)
        requires
            self.wf(),
            states@.len() == CHANNEL_SLOTS,
        ensures
            t.wf(),
            t.channels@ == self.open_channels(states@, CHANNEL_SLOTS as int),
            t.current == 0,
            t.attempt == 0,
    {
        let mut channels: Vec<u64> = Vec::new();
        let mut i: usize = 0;
        while i < CHANNEL_SLOTS
            invariant
                self.wf(),
                states@.len() == CHANNEL_SLOTS,
                i <= CHANNEL_SLOTS,
                channels@ == self.open_channels(states@, i as int),
            decreases CHANNEL_SLOTS - i,
        {
            if let Some(channel) = self.data_channels[i] {
                if states[i] == ChannelState::Open {
                    channels.push(channel);
                }
            }
            i = i + 1;
        }
        DrainTask { channels, current: 0, attempt: 0 }
    }

    /// Begins to close the connection. Only the first call does anything: it marks
    /// the session closed and cancelled.
    pub fn close(&mut self) -> (s: CloseStep)
        requires
            old(self).wf(),
        ensures
            final(self).wf(),
            *final(self) == closing(*old(self)),
            s == if old(self).session_closed {
                CloseStep::AlreadyClosed
            } else {
                CloseStep::DrainAndClosePeer
            },
    {
        if self.session_closed {
            return CloseStep::AlreadyClosed;
        }
        self.session_closed = true;
        self.session_cancelled = true;
        self.connected = false;
        CloseStep::DrainAndClosePeer
    }

    /// The peer connection was closed: every cache is cleared and upper layers are
    /// told.
    pub fn peer_closed(&mut self) -> (e: ConnectionEvent)
        requires
            old(self).wf(),
        ensures
            final(self).wf(),
            final(self).is_bare(),
            final(self).peer_id == old(self).peer_id,
            final(self).session_id == old(self).session_id,
            final(self).session_closed == old(self).session_closed,
            final(self).session_cancelled == old(self).session_cancelled,
            final(self).connected == old(self).connected,
            e == (ConnectionEvent::ConnectionClosed {
                peer_id: old(self).peer_id,
                session_id: old(self).session_id,
            }),
    {
        self.lane_cache = empty_slots();
        self.data_channels = empty_slots();
        self.media_tracks.clear();
        self.track_sequence_numbers.clear();
        self.track_ssrcs.clear();
        ConnectionEvent::ConnectionClosed {
            peer_id: self.peer_id.clone(),
            session_id: self.session_id,
        }
    }

    /// How a channel for this payload type is set up.
    pub fn get_data_channel_config(payload_type: PayloadType) -> (c: ChannelConfig)
        ensures
            c == channel_config(payload_type),
    {
        match payload_type {
            PayloadType::StreamLatencyFirst => ChannelConfig {
                ordered: false,
                max_retransmits: Some(3),
            },
            _ => ChannelConfig { ordered: true, max_retransmits: None },
        }
    }

    /// The channel under the cached lane of a payload type.
    pub fn cached_lane(&self, payload_type: PayloadType) -> (r: Option<u64>)
        requires
            self.wf(),
            !(payload_type is MediaRtp),
        ensures
            r == self.lane_cache@[slot(payload_type)],
    {
        self.lane_cache[payload_type.code() as usize]
    }

    /// Gets the lane of a payload type, given the state of the channel under the
    /// cached lane, where there is one.
    ///
    /// A cached lane is used again unless its channel is closing or closed; then both
    /// caches drop it. Media has no lane.
    pub fn get_lane(&mut self, payload_type: PayloadType, cached_state: ChannelState) -> (r:
        NetworkResult<LanePlan>)
        requires
            old(self).wf(),
        ensures
            final(self).wf(),
            gets_lane(*old(self), payload_type, cached_state, *final(self), r),
    {
        if let PayloadType::MediaRtp = payload_type {
            return Err(
                NetworkError::NotImplemented(
                    "MediaTrack Lane requires stream_id, use get_media_lane() instead".to_owned(),
                ),
            );
        }
        let i: usize = payload_type.code() as usize;
        if let Some(channel) = self.lane_cache[i] {
            if cached_state == ChannelState::Closed || cached_state == ChannelState::Closing {
                self.invalidate_lane(payload_type);
            } else {
                return Ok(LanePlan::Reuse { channel });
            }
        }
        self.create_lane_internal(payload_type)
    }

    /// The same as [`WebRtcConnection::get_lane`].
    pub fn create_lane(&mut self, payload_type: PayloadType, cached_state: ChannelState) -> (r:
        NetworkResult<LanePlan>)
        requires
            old(self).wf(),
        ensures
            final(self).wf(),
            gets_lane(*old(self), payload_type, cached_state, *final(self), r),
    {
        self.get_lane(payload_type, cached_state)
    }

    /// Plans a new channel for a payload type. Media has none.
    fn create_lane_internal(&self, payload_type: PayloadType) -> (r: NetworkResult<LanePlan>)
        ensures
            if payload_type is MediaRtp {
                &&& r matches Err(NetworkError::NotImplemented(m))
                &&& m@ == "MediaTrack Lane not implemented in this method"@
            } else {
                r == Ok::<LanePlan, NetworkError>(
                    LanePlan::Create { config: channel_config(payload_type) },
                )
            },
    {
        if let PayloadType::MediaRtp = payload_type {
            return Err(
                NetworkError::NotImplemented(
                    "MediaTrack Lane not implemented in this method".to_owned(),
                ),
            );
        }
        Ok(LanePlan::Create { config: Self::get_data_channel_config(payload_type) })
    }

    /// A channel was created for a payload type: it and its lane are cached.
    pub fn lane_created(&mut self, payload_type: PayloadType, channel: u64)
        requires
            old(self).wf(),
            !(payload_type is MediaRtp),
        ensures
            final(self).wf(),
            cached(*old(self), slot(payload_type), channel, *final(self)),
    {
        let i: usize = payload_type.code() as usize;
        self.data_channels[i] = Some(channel);
        self.lane_cache[i] = Some(channel);
    }

    /// Drops the cached lane and channel of a payload type.
    pub fn invalidate_lane(&mut self, payload_type: PayloadType)
        requires
            old(self).wf(),
            !(payload_type is MediaRtp),
        ensures
            final(self).wf(),
            dropped(*old(self), slot(payload_type), *final(self)),
    {
        let i: usize = payload_type.code() as usize;
        self.lane_cache[i] = None;
        self.data_channels[i] = None;
    }

    /// A channel opened: upper layers are told.
    pub fn data_channel_opened(&self, payload_type: PayloadType) -> (e: ConnectionEvent)
        ensures
            e == (ConnectionEvent::DataChannelOpened {
                peer_id: self.peer_id,
                session_id: self.session_id,
                payload_type,
            }),
    {
        ConnectionEvent::DataChannelOpened {
            peer_id: self.peer_id.clone(),
            session_id: self.session_id,
            payload_type,
        }
    }

    fn notify_data_channel_closed(&self, payload_type: PayloadType) -> (e: ConnectionEvent)
        ensures
            e == (ConnectionEvent::DataChannelClosed {
                peer_id: self.peer_id,
                session_id: self.session_id,
                payload_type,
            }),
    {
        ConnectionEvent::DataChannelClosed {
            peer_id: self.peer_id.clone(),
            session_id: self.session_id,
            payload_type,
        }
    }

    /// A channel that this side created was closed. A cancelled session ignores it;
    /// otherwise the caches drop it and upper layers are told.
    pub fn created_channel_closed(&mut self, payload_type: PayloadType) -> (r: Option<
        ConnectionEvent,
    >)
        requires
            old(self).wf(),
            !(payload_type is MediaRtp),
        ensures
            final(self).wf(),
            if old(self).session_cancelled {
                r is None && *final(self) == *old(self)
            } else {
                &&& r == Some(
                    ConnectionEvent::DataChannelClosed {
                        peer_id: old(self).peer_id,
                        session_id: old(self).session_id,
                        payload_type,
                    },
                )
                &&& dropped(*old(self), slot(payload_type), *final(self))
            },
    {
        if self.session_cancelled {
            return None;
        }
        self.invalidate_lane(payload_type);
        Some(self.notify_data_channel_closed(payload_type))
    }

    /// A channel that the peer created was closed: the caches drop it and upper layers
    /// are told.
    pub fn received_channel_closed(&mut self, payload_type: PayloadType) -> (e: ConnectionEvent)
        requires
            old(self).wf(),
            !(payload_type is MediaRtp),
        ensures
            final(self).wf(),
            e == (ConnectionEvent::DataChannelClosed {
                peer_id: old(self).peer_id,
                session_id: old(self).session_id,
                payload_type,
            }),
            dropped(*old(self), slot(payload_type), *final(self)),
    {
        self.invalidate_lane(payload_type);
        self.notify_data_channel_closed(payload_type)
    }

    /// Takes over a channel that the peer created: it and its lane are cached, and the
    /// lane's messages are forwarded (see [`pump_step`]). Media has none.
    pub fn register_received_data_channel(&mut self, channel: u64, payload_type: PayloadType) -> (r:
        NetworkResult<PumpAction>)
        requires
            old(self).wf(),
        ensures
            final(self).wf(),
            if payload_type is MediaRtp {
                &&& *final(self) == *old(self)
                &&& r matches Err(NetworkError::NotImplemented(m))
                &&& m@ == "MediaTrack Lane not supported in this method"@
            } else {
                &&& r matches Ok(PumpAction::Receive)
                &&& cached(*old(self), slot(payload_type), channel, *final(self))
            },
    {
        if let PayloadType::MediaRtp = payload_type {
            return Err(
                NetworkError::NotImplemented(
                    "MediaTrack Lane not supported in this method".to_owned(),
                ),
            );
        }
        self.lane_created(payload_type, channel);
        Ok(PumpAction::Receive)
    }

    /// Adds a media track, or finds the one with this id.
    ///
    /// H264 and VP8 video and Opus audio can be sent; the codec's case does not matter.
    pub fn add_media_track(&self, track_id: &str, codec: &str, media_type: &str) -> (r:
        NetworkResult<TrackPlan>)
        ensures
            if self.media_tracks@.contains_key(track_id@) {
                r == Ok::<TrackPlan, NetworkError>(
                    TrackPlan::Reuse { track: self.media_tracks@[track_id@].0 },
                )
            } else {
                plans_track(codec@, media_type@, text::in_capitals(codec@), r)
            },
    {
        if let Some(entry) = self.media_tracks.get(track_id) {
            return Ok(TrackPlan::Reuse { track: entry.0 });
        }
        let capital_codec = capitals(codec);
        plan_track(codec, media_type, capital_codec.as_str())
    }

    /// A track was created and added: it starts at sequence number zero, under a
    /// random synchronisation source.
    pub fn media_track_added(&mut self, track_id: &str, track: u64, sender: u64) -> (ssrc: u32)
        requires
            old(self).wf(),
        ensures
            final(self).wf(),
            track_kept(*old(self), track_id@, track, sender, ssrc, *final(self)),
    {
        let ssrc: u32 = random_u32();
        self.keep_media_track(track_id, track, sender, ssrc);
        ssrc
    }

    /// Keeps a track under a synchronisation source, at sequence number zero.
    pub fn keep_media_track(&mut self, track_id: &str, track: u64, sender: u64, ssrc: u32)
        requires
            old(self).wf(),
        ensures
            final(self).wf(),
            track_kept(*old(self), track_id@, track, sender, ssrc, *final(self)),
    {
        self.media_tracks.insert(track_id.to_owned(), (track, sender));
        self.track_sequence_numbers.insert(track_id.to_owned(), 0);
        self.track_ssrcs.insert(track_id.to_owned(), ssrc);
    }

    /// Begins to remove a track. Returns the sender to remove from the peer
    /// connection, or none if there is no such track.
    pub fn remove_media_track(&mut self, track_id: &str) -> (r: Option<u64>)
        requires
            old(self).wf(),
        ensures
            final(self).wf(),
            *final(self) == (WebRtcConnection {
                media_tracks: final(self).media_tracks,
                ..*old(self)
            }),
            final(self).media_tracks@ == old(self).media_tracks@.remove(track_id@),
            r == if old(self).media_tracks@.contains_key(track_id@) {
                Some(old(self).media_tracks@[track_id@].1)
            } else {
                None
            },
    {
        let r: Option<u64> = match self.media_tracks.get(track_id) {
            Some(entry) => Some(entry.1),
            None => None,
        };
        self.media_tracks.remove(track_id);
        r
    }

    /// The sender of a track was removed: its numbers are forgotten.
    pub fn media_track_removed(&mut self, track_id: &str)
        requires
            old(self).wf(),
        ensures
            final(self).wf(),
            *final(self) == (WebRtcConnection {
                track_sequence_numbers: final(self).track_sequence_numbers,
                track_ssrcs: final(self).track_ssrcs,
                ..*old(self)
            }),
            final(self).track_sequence_numbers@ == old(self).track_sequence_numbers@.remove(
                track_id@,
            ),
            final(self).track_ssrcs@ == old(self).track_ssrcs@.remove(track_id@),
    {
        self.track_sequence_numbers.remove(track_id);
        self.track_ssrcs.remove(track_id);
    }

    /// The track with this id.
    pub fn get_media_track(&self, track_id: &str) -> (r: Option<u64>)
        ensures
            r == if self.media_tracks@.contains_key(track_id@) {
                Some(self.media_tracks@[track_id@].0)
            } else {
                None
            },
    {
        match self.media_tracks.get(track_id) {
            Some(entry) => Some(entry.0),
            None => None,
        }
    }

    /// The next sequence number of a track; after 65535 comes zero.
    pub fn next_sequence_number(&mut self, track_id: &str) -> (r: Option<u16>)
        requires
            old(self).wf(),
        ensures
            final(self).wf(),
            *final(self) == (WebRtcConnection {
                track_sequence_numbers: final(self).track_sequence_numbers,
                ..*old(self)
            }),
            if old(self).track_sequence_numbers@.contains_key(track_id@) {
                let n = old(self).track_sequence_numbers@[track_id@];
                &&& r == Some(n)
                &&& final(self).track_sequence_numbers@ == old(self).track_sequence_numbers@.insert(
                    track_id@,
                    n.wrapping_add(1),
                )
            } else {
                r is None && final(self).track_sequence_numbers@ == old(
                    self,
                ).track_sequence_numbers@
            },
    {
        let current: Option<u16> = match self.track_sequence_numbers.get(track_id) {
            Some(n) => Some(*n),
            None => None,
        };
        if let Some(n) = current {
            self.track_sequence_numbers.insert(track_id.to_owned(), n.wrapping_add(1));
        }
        current
    }

    /// The synchronisation source of a track.
    pub fn get_ssrc(&self, track_id: &str) -> (r: Option<u32>)
        ensures
            r == if self.track_ssrcs@.contains_key(track_id@) {
                Some(self.track_ssrcs@[track_id@])
            } else {
                None
            },
    {
        match self.track_ssrcs.get(track_id) {
            Some(n) => Some(*n),
            None => None,
        }
    }
}

/// Both caches hold the channel in slot `i`; nothing else has changed.
pub open spec fn cached(before: WebRtcConnection, i: int, channel: u64, after: WebRtcConnection) -> bool {
    &&& after == (WebRtcConnection {
        data_channels: after.data_channels,
        lane_cache: after.lane_cache,
        ..before
    })
    &&& after.data_channels@ == before.data_channels@.update(i, Some(channel))
    &&& after.lane_cache@ == before.lane_cache@.update(i, Some(channel))
}

/// Both caches hold nothing in slot `i`; nothing else has changed.
pub open spec fn dropped(before: WebRtcConnection, i: int, after: WebRtcConnection) -> bool {
    &&& after == (WebRtcConnection {
        data_channels: after.data_channels,
        lane_cache: after.lane_cache,
        ..before
    })
    &&& after.data_channels@ == before.data_channels@.update(i, None)
    &&& after.lane_cache@ == before.lane_cache@.update(i, None)
}

/// The track is kept with sequence number zero; nothing else has changed.
pub open spec fn track_kept(
    before: WebRtcConnection,
    track_id: Seq<char>,
    track: u64,
    sender: u64,
    ssrc: u32,
    after: WebRtcConnection,
) -> bool {
    &&& after == (WebRtcConnection {
        media_tracks: after.media_tracks,
        track_sequence_numbers: after.track_sequence_numbers,
        track_ssrcs: after.track_ssrcs,
        ..before
    })
    &&& after.media_tracks@ == before.media_tracks@.insert(track_id, (track, sender))
    &&& after.track_sequence_numbers@ == before.track_sequence_numbers@.insert(track_id, 0)
    &&& after.track_ssrcs@ == before.track_ssrcs@.insert(track_id, ssrc)
}

/// The plan for a new track, given the codec as it was named and in capitals.
pub open spec fn plans_track(
    codec: Seq<char>,
    media_type: Seq<char>,
    capital_codec: Seq<char>,
    r: NetworkResult<TrackPlan>,
) -> bool {
    match mime_type_of(media_type, capital_codec) {
        Some(mime) => r matches Ok(TrackPlan::Create { mime_type, stream_id }) && mime_type@ == mime
            && stream_id@ == "actr-"@ + media_type,
        None => r matches Err(NetworkError::WebRtcError(m)) && m@ == "Unsupported codec: "@ + codec
            + " for "@ + media_type,
    }
}

/// Plans a new track, given the codec as it was named and in capitals.
pub fn plan_track(codec: &str, media_type: &str, capital_codec: &str) -> (r: NetworkResult<
    TrackPlan,
>)
    ensures
        plans_track(codec@, media_type@, capital_codec@, r),
{
    match mime_type(media_type, capital_codec) {
        Some(mime_type) => Ok(
            TrackPlan::Create { mime_type, stream_id: join("actr-", media_type) },
        ),
        None => {
            let mut m = join3("Unsupported codec: ", codec, " for ");
            m.append(media_type);
            Err(NetworkError::WebRtcError(m))
        },
    }
}

// ── Laws ──────────────────────────────────────────────────────────────────────

/// Closing twice is closing once.
pub proof fn closing_is_idempotent(c: WebRtcConnection)
    ensures
        closing(closing(c)) == closing(c),
        closing(c).session_closed,
{
}

/// What is left of a connection after any number of reported states.
pub open spec fn states_changed(c: WebRtcConnection, states: Seq<PeerState>) -> WebRtcConnection
    decreases states.len(),
{
    if states.len() == 0 {
        c
    } else {
        state_changed(states_changed(c, states.drop_last()), states.last())
    }
}

/// Once closed, a connection stays closed and not connected whatever states are
/// still reported.
pub proof fn a_closed_connection_stays_closed(c: WebRtcConnection, states: Seq<PeerState>)
    requires
        c.wf(),
    ensures
        states_changed(closing(c), states) == closing(c),
        !c.session_closed ==> !states_changed(closing(c), states).connected,
    decreases states.len(),
{
    if states.len() > 0 {
        a_closed_connection_stays_closed(c, states.drop_last());
    }
}

/// A lane that was created is used again for as long as its channel is not closing or
/// closed, and forgotten from then on.
pub proof fn a_created_lane_is_used_until_it_closes(
    before: WebRtcConnection,
    payload_type: PayloadType,
    channel: u64,
    created: WebRtcConnection,
    state: ChannelState,
    after: WebRtcConnection,
    r: NetworkResult<LanePlan>,
)
    requires
        before.wf(),
        !(payload_type is MediaRtp),
        cached(before, slot(payload_type), channel, created),
        gets_lane(created, payload_type, state, after, r),
    ensures
        if state is Closed || state is Closing {
            &&& r matches Ok(plan) && plan is Create
            &&& after.lane_cache@[slot(payload_type)] is None
            &&& after.data_channels@[slot(payload_type)] is None
        } else {
            &&& r == Ok::<LanePlan, NetworkError>(LanePlan::Reuse { channel })
            &&& after == created
        },
{
}

/// Caching or dropping the lane of one payload type leaves those of the others.
pub proof fn lanes_are_independent(
    before: WebRtcConnection,
    payload_type: PayloadType,
    other: PayloadType,
    channel: u64,
    after: WebRtcConnection,
)
    requires
        before.wf(),
        payload_type != other,
        !(payload_type is MediaRtp),
        !(other is MediaRtp),
        cached(before, slot(payload_type), channel, after) || dropped(
            before,
            slot(payload_type),
            after,
        ),
    ensures
        after.lane_cache@[slot(other)] == before.lane_cache@[slot(other)],
        after.data_channels@[slot(other)] == before.data_channels@[slot(other)],
{
}

/// The sequence number that a track hands out after `n` others, from `first` on.
pub open spec fn nth_sequence_number(first: u16, n: nat) -> u16
    decreases n,
{
    if n == 0 {
        first
    } else {
        nth_sequence_number(first, (n - 1) as nat).wrapping_add(1)
    }
}

/// Sequence numbers count up by one and start over after 65535.
pub proof fn sequence_numbers_wrap(first: u16, n: nat)
    ensures
        nth_sequence_number(first, n) == (first + n) % 0x10000,
    decreases n,
{
    if n > 0 {
        sequence_numbers_wrap(first, (n - 1) as nat);
    }
}

/// How many looks a drain may still take: fifty per channel.
pub open spec fn drain_budget(t: DrainTask) -> int {
    (t.channels@.len() - t.current) * DRAIN_MAX_POLLS - t.attempt
}

/// Every look at a send buffer brings the drain nearer to its end, so it looks at
/// most fifty times per channel.
pub proof fn a_drain_ends(before: DrainTask, after: DrainTask, amount: usize)
    requires
        before.wf(),
        before.current < before.channels@.len(),
        looked_at(before, amount, after),
    ensures
        drain_budget(after) < drain_budget(before),
        0 < drain_budget(before) <= before.channels@.len() * DRAIN_MAX_POLLS,
{
}

/// Messages arrive whole and in order on the channel of every payload type but one: stream
/// data that puts latency first may be reordered, and is given up after three
/// retransmissions.
pub proof fn only_latency_first_may_lose_or_reorder(payload_type: PayloadType, c: ChannelConfig)
    requires
        call_ensures(WebRtcConnection::get_data_channel_config, (payload_type,), c),
    ensures
        payload_type is RpcReliable || payload_type is RpcSignal || payload_type is StreamReliable
            || payload_type is MediaRtp ==> c.ordered && c.max_retransmits is None,
        payload_type is StreamLatencyFirst ==> !c.ordered && c.max_retransmits == Some(3u16),
{
}

/// A lane that is planned anew gets the channel that its payload type asks for: one that
/// keeps order and gives nothing up, unless latency comes first. A connection that has no
/// lane plans one, except for media, which has none.
pub proof fn a_planned_lane_delivers_as_its_type_asks(
    c: &mut WebRtcConnection,
    payload_type: PayloadType,
    state: ChannelState,
    r: NetworkResult<LanePlan>,
)
    requires
        c.wf(),
        call_ensures(WebRtcConnection::get_lane, (c, payload_type, state), r) || call_ensures(
            WebRtcConnection::create_lane,
            (c, payload_type, state),
            r,
        ),
    ensures
        r is Err <==> payload_type is MediaRtp,
        r matches Err(e) ==> (e matches NetworkError::NotImplemented(m) && m@
            == "MediaTrack Lane requires stream_id, use get_media_lane() instead"@),
        r is Err ==> r->Err_0 is NotImplemented && *final(c) == *old(c),
        r matches Ok(LanePlan::Create { config }) ==> {
            &&& config.ordered == !(payload_type is StreamLatencyFirst)
            &&& config.max_retransmits == if payload_type is StreamLatencyFirst {
                Some(3u16)
            } else {
                None
            }
        },
        final(c).media_tracks == old(c).media_tracks,
        final(c).track_sequence_numbers == old(c).track_sequence_numbers,
        final(c).track_ssrcs == old(c).track_ssrcs,
        final(c).session_closed == old(c).session_closed,
        final(c).session_cancelled == old(c).session_cancelled,
        final(c).connected == old(c).connected,
        final(c).peer_id == old(c).peer_id,
        final(c).session_id == old(c).session_id,
{
}

/// A lane that is cached is used again, and nothing changes, unless its channel is closing
/// or closed; then it is dropped and a new one is planned. Without a cached lane one is
/// planned, and nothing changes.
pub proof fn a_lane_is_reused_while_its_channel_lives(
    c: &mut WebRtcConnection,
    payload_type: PayloadType,
    state: ChannelState,
    r: NetworkResult<LanePlan>,
    before: Option<u64>,
    after: Option<u64>,
)
    requires
        c.wf(),
        !(payload_type is MediaRtp),
        call_ensures(WebRtcConnection::cached_lane, (&*old(c), payload_type), before),
        call_ensures(WebRtcConnection::get_lane, (c, payload_type, state), r),
        call_ensures(WebRtcConnection::cached_lane, (&*final(c), payload_type), after),
    ensures
        match before {
            Some(channel) => if state is Closed || state is Closing {
                (r matches Ok(plan) && plan is Create) && after is None
            } else {
                r == Ok::<LanePlan, NetworkError>(LanePlan::Reuse { channel }) && *final(c)
                    == *old(c)
            },
            None => (r matches Ok(plan) && plan is Create) && *final(c) == *old(c),
        },
{
}

/// A channel that was created for a payload type, or that the peer created for it, is the one
/// under its cached lane from then on. The lanes of other payload types stay what they were.
pub proof fn a_new_channel_carries_its_lane(
    c: &mut WebRtcConnection,
    payload_type: PayloadType,
    channel: u64,
    r: NetworkResult<PumpAction>,
    other: PayloadType,
    before: Option<u64>,
    after: Option<u64>,
)
    requires
        c.wf(),
        !(payload_type is MediaRtp),
        !(other is MediaRtp),
        call_ensures(WebRtcConnection::lane_created, (c, payload_type, channel), ()) || (
        call_ensures(
            WebRtcConnection::register_received_data_channel,
            (c, channel, payload_type),
            r,
        ) && r is Ok),
        call_ensures(WebRtcConnection::cached_lane, (&*old(c), other), before),
        call_ensures(WebRtcConnection::cached_lane, (&*final(c), other), after),
    ensures
        after == if other == payload_type {
            Some(channel)
        } else {
            before
        },
        final(c).data_channels@.contains(Some(channel)),
        final(c).wf(),
        final(c).media_tracks == old(c).media_tracks,
        final(c).session_closed == old(c).session_closed,
        final(c).session_cancelled == old(c).session_cancelled,
        final(c).connected == old(c).connected,
{
    assert(final(c).data_channels@[slot(payload_type)] == Some(channel));
}

/// A channel that the peer created is taken over and read from, for every payload type but
/// media, for which it is refused and nothing changes.
pub proof fn a_received_channel_is_read(
    c: &mut WebRtcConnection,
    channel: u64,
    payload_type: PayloadType,
    r: NetworkResult<PumpAction>,
)
    requires
        c.wf(),
        call_ensures(
            WebRtcConnection::register_received_data_channel,
            (c, channel, payload_type),
            r,
        ),
    ensures
        payload_type is MediaRtp ==> (r matches Err(NetworkError::NotImplemented(m)) && m@
            == "MediaTrack Lane not supported in this method"@) && *final(c)
            == *old(c),
        !(payload_type is MediaRtp) ==> (r matches Ok(a) && a is Receive),
{
}

/// When a channel is closed its lane is forgotten, those of other payload types are not, and
/// upper layers are told which channel of which session it was. Only a cancelled session
/// passes over the closing of a channel that this side created.
pub proof fn a_closed_channel_is_forgotten_and_told(
    c: &mut WebRtcConnection,
    payload_type: PayloadType,
    told: Option<ConnectionEvent>,
    other: PayloadType,
    before: Option<u64>,
    after: Option<u64>,
)
    requires
        c.wf(),
        !(payload_type is MediaRtp),
        !(other is MediaRtp),
        call_ensures(WebRtcConnection::created_channel_closed, (c, payload_type), told) || (
        told is Some && call_ensures(
            WebRtcConnection::received_channel_closed,
            (c, payload_type),
            told->0,
        )),
        call_ensures(WebRtcConnection::cached_lane, (&*old(c), other), before),
        call_ensures(WebRtcConnection::cached_lane, (&*final(c), other), after),
    ensures
        told is None ==> old(c).session_cancelled && *final(c) == *old(c),
        !old(c).session_cancelled ==> told is Some,
        told matches Some(e) ==> {
            &&& e matches ConnectionEvent::DataChannelClosed {
                peer_id,
                session_id,
                payload_type: of,
            }
            &&& peer_id == old(c).peer_id && session_id == old(c).session_id && of == payload_type
            &&& after == if other == payload_type {
                None
            } else {
                before
            }
        },
        final(c).wf(),
        final(c).media_tracks == old(c).media_tracks,
{
}

/// The closing of a channel that the peer created is told even by a cancelled session; that of
/// a channel that this side created is not.
pub proof fn a_cancelled_session_ignores_its_own_channels(
    c: &mut WebRtcConnection,
    payload_type: PayloadType,
    r: Option<ConnectionEvent>,
)
    requires
        c.wf(),
        !(payload_type is MediaRtp),
        old(c).session_cancelled,
        call_ensures(WebRtcConnection::created_channel_closed, (c, payload_type), r),
    ensures
        r is None,
        *final(c) == *old(c),
{
}

/// A lane that is dropped is not cached any more, nor is its channel. Lanes of other payload
/// types are untouched.
pub proof fn a_dropped_lane_is_gone(
    c: &mut WebRtcConnection,
    payload_type: PayloadType,
    other: PayloadType,
    before: Option<u64>,
    after: Option<u64>,
)
    requires
        c.wf(),
        !(payload_type is MediaRtp),
        !(other is MediaRtp),
        call_ensures(WebRtcConnection::invalidate_lane, (c, payload_type), ()),
        call_ensures(WebRtcConnection::cached_lane, (&*old(c), other), before),
        call_ensures(WebRtcConnection::cached_lane, (&*final(c), other), after),
    ensures
        after == if other == payload_type {
            None
        } else {
            before
        },
        final(c).data_channels@[slot(payload_type)] is None,
        final(c).media_tracks == old(c).media_tracks,
        final(c).connected == old(c).connected,
{
}

/// An opened channel is told with the peer, the session and the payload type.
pub proof fn an_opened_channel_is_told(
    c: WebRtcConnection,
    payload_type: PayloadType,
    e: ConnectionEvent,
)
    requires
        call_ensures(WebRtcConnection::data_channel_opened, (&c, payload_type), e),
    ensures
        e matches ConnectionEvent::DataChannelOpened { peer_id, session_id, payload_type: of }
            && peer_id == c.peer_id && session_id == c.session_id && of == payload_type,
{
}

/// A new connection is to the peer and the session that it was made for, counts as connected,
/// is not closed, and has no channel.
pub proof fn a_new_connection_is_open_and_bare(
    peer_id: ActrId,
    session_id: u64,
    c: WebRtcConnection,
    up: bool,
    payload_type: PayloadType,
    lane: Option<u64>,
    states: Vec<ChannelState>,
    open: bool,
    track_id: &str,
    track: Option<u64>,
)
    requires
        call_ensures(WebRtcConnection::new, (peer_id, session_id), c),
        call_ensures(WebRtcConnection::is_connected, (&c,), up),
        !(payload_type is MediaRtp),
        call_ensures(WebRtcConnection::cached_lane, (&c, payload_type), lane),
        states@.len() == CHANNEL_SLOTS,
        call_ensures(WebRtcConnection::has_open_data_channel, (&c, &states), open),
        call_ensures(WebRtcConnection::get_media_track, (&c, track_id), track),
    ensures
        up,
        c.connected,
        !c.session_cancelled,
        c.peer_id == peer_id,
        c.session_id == session_id,
        lane is None,
        !open,
        track is None,
{
}

/// Upper layers are told of the state that the engine reports, under its own name; a state
/// that the engine does not name counts as closed.
pub proof fn a_reported_state_is_told_by_its_name(
    c: &mut WebRtcConnection,
    state: PeerState,
    r: Option<StateChange>,
)
    requires
        c.wf(),
        call_ensures(WebRtcConnection::handle_state_change, (c, state), r),
    ensures
        r is None <==> old(c).session_cancelled,
        r matches Some(change) ==> {
            &&& change.event matches ConnectionEvent::StateChanged { peer_id, session_id, state: s }
            &&& peer_id == old(c).peer_id && session_id == old(c).session_id
            &&& s is New <==> state is New
            &&& s is Connecting <==> state is Connecting
            &&& s is Connected <==> state is Connected
            &&& s is Disconnected <==> state is Disconnected
            &&& s is Failed <==> state is Failed
            &&& s is Closed <==> state is Closed || state is Unspecified
        },
{
}

/// The hook hears of a peer that is being connected to, that is connected, and that is lost,
/// whatever it is lost by.
pub proof fn hooks_hear_of_what_becomes_of_a_peer(
    c: &mut WebRtcConnection,
    state: PeerState,
    r: Option<StateChange>,
)
    requires
        c.wf(),
        call_ensures(WebRtcConnection::handle_state_change, (c, state), r),
        r is Some,
    ensures
        match r->0.hook {
            HookPlan::Skip => state is New,
            HookPlan::LookUpPair => state is Connected,
            HookPlan::Call(HookEvent::WebRtcConnectStart { peer_id }) => state is Connecting
                && peer_id == old(c).peer_id,
            HookPlan::Call(HookEvent::WebRtcDisconnected { peer_id }) => (state is Disconnected
                || state is Failed || state is Closed || state is Unspecified) && peer_id
                == old(c).peer_id,
            HookPlan::Call(_) => false,
        },
{
}

/// A connection survives the loss of its peer: only a peer that is closed while it counted as
/// connected closes it. Whether it counts as connected follows the state; nothing else
/// changes, and nothing at all once the session is cancelled.
pub proof fn only_a_closed_peer_closes_the_connection(
    c: &mut WebRtcConnection,
    state: PeerState,
    r: Option<StateChange>,
)
    requires
        c.wf(),
        call_ensures(WebRtcConnection::handle_state_change, (c, state), r),
    ensures
        r matches Some(change) ==> (change.close <==> old(c).connected && state is Closed),
        old(c).session_cancelled ==> *final(c) == *old(c),
        !old(c).session_cancelled ==> (final(c).connected <==> state is New || state is Connecting
            || state is Connected),
        *final(c) == (WebRtcConnection { connected: final(c).connected, ..*old(c) }),
{
}

/// A peer counts as up exactly in the states in which it is not lost.
pub proof fn a_peer_is_up_until_it_is_lost(state: PeerState, up: bool, told: ConnectionState)
    requires
        call_ensures(PeerState::is_up, (state,), up),
        call_ensures(PeerState::connection_state, (state,), told),
    ensures
        up <==> told is New || told is Connecting || told is Connected,
        up <==> !(state is Disconnected || state is Failed || state is Closed || state
            is Unspecified),
{
}

/// A connected peer is relayed exactly if the selected pair names a relay.
pub proof fn a_peer_is_relayed_if_its_pair_says_so(
    c: WebRtcConnection,
    pair: Option<String>,
    e: HookEvent,
    before: Seq<char>,
    behind: Seq<char>,
)
    requires
        call_ensures(WebRtcConnection::connected_hook, (&c, pair), e),
    ensures
        e matches HookEvent::WebRtcConnected { peer_id, relayed } && {
            &&& peer_id == c.peer_id
            &&& pair is None ==> !relayed
            &&& (pair matches Some(p) && p@ == before + "relay"@ + behind) ==> relayed
            &&& relayed ==> (pair matches Some(p) && exists|at: int|
                0 <= at <= p@.len() - 5 && #[trigger] p@.subrange(at, at + 5) == "relay"@)
        },
{
    reveal_strlit("relay");
    let word = "relay"@;
    if let Some(p) = pair {
        let whole = before + word + behind;
        assert(whole.subrange(before.len() as int, before.len() + 5int) =~= word);
        assert(text::stands_at(whole, word, before.len() as int));
        if text::occurs(p@, word) {
            let at = choose|at: int| text::stands_at(p@, word, at);
            assert(p@.subrange(at, at + 5) == word);
        }
    }
}

/// Closing happens once: the first call closes the session, and later calls find it closed and
/// change nothing. From then on the connection is not connected.
pub proof fn closing_happens_once(
    c: &mut WebRtcConnection,
    s: CloseStep,
    up: bool,
    was_up: bool,
)
    requires
        c.wf(),
        call_ensures(WebRtcConnection::is_connected, (&*old(c),), was_up),
        call_ensures(WebRtcConnection::close, (c,), s),
        call_ensures(WebRtcConnection::is_connected, (&*final(c),), up),
    ensures
        !up,
        final(c).session_cancelled,
        s is DrainAndClosePeer <==> was_up,
        s is DrainAndClosePeer ==> !final(c).connected,
        s is AlreadyClosed ==> *final(c) == *old(c),
        final(c).data_channels == old(c).data_channels,
        final(c).lane_cache == old(c).lane_cache,
        final(c).media_tracks == old(c).media_tracks,
{
}

/// Once the peer connection is closed nothing is cached: no lane, no track and no number. The
/// session stays what it was, and upper layers are told that it is closed.
pub proof fn a_closed_peer_leaves_nothing_behind(
    c: &mut WebRtcConnection,
    e: ConnectionEvent,
    payload_type: PayloadType,
    lane: Option<u64>,
    track_id: &str,
    track: Option<u64>,
    ssrc: Option<u32>,
)
    requires
        c.wf(),
        !(payload_type is MediaRtp),
        call_ensures(WebRtcConnection::peer_closed, (c,), e),
        call_ensures(WebRtcConnection::cached_lane, (&*final(c), payload_type), lane),
        call_ensures(WebRtcConnection::get_media_track, (&*final(c), track_id), track),
        call_ensures(WebRtcConnection::get_ssrc, (&*final(c), track_id), ssrc),
    ensures
        lane is None,
        track is None,
        ssrc is None,
        forall|i: int|
            0 <= i < final(c).data_channels@.len() ==> (#[trigger] final(c).data_channels@[i]) is None,
        final(c).session_closed == old(c).session_closed,
        final(c).session_cancelled == old(c).session_cancelled,
        final(c).peer_id == old(c).peer_id,
        e matches ConnectionEvent::ConnectionClosed { peer_id, session_id } && peer_id
            == old(c).peer_id && session_id == old(c).session_id,
{
}

/// Signaling that has set a connection up makes it count as connected, and changes nothing
/// else.
pub proof fn connecting_only_marks(c: &mut WebRtcConnection)
    requires
        call_ensures(WebRtcConnection::connect, (c,), ()),
    ensures
        final(c).connected,
        *old(c) == (WebRtcConnection { connected: old(c).connected, ..*final(c) }),
{
}

proof fn lemma_open_channels(c: WebRtcConnection, states: Seq<ChannelState>, n: int)
    requires
        0 <= n <= CHANNEL_SLOTS,
        c.wf(),
    ensures
        forall|i: int|
            0 <= i < n && states[i] is Open && (#[trigger] c.data_channels@[i]) is Some
                ==> c.open_channels(states, n).contains(c.data_channels@[i]->0),
        forall|k: int|
            0 <= k < c.open_channels(states, n).len() ==> is_open_within(
                c,
                states,
                n,
                #[trigger] c.open_channels(states, n)[k],
            ),
    decreases n,
{
    if n > 0 {
        lemma_open_channels(c, states, n - 1);
        let before = c.open_channels(states, n - 1);
        let now = c.open_channels(states, n);
        assert forall|i: int|
            0 <= i < n && states[i] is Open && (#[trigger] c.data_channels@[i])
                is Some implies now.contains(c.data_channels@[i]->0) by {
            let channel = c.data_channels@[i]->0;
            if i < n - 1 {
                let k = choose|k: int| 0 <= k < before.len() && before[k] == channel;
                assert(now[k] == channel);
            } else {
                assert(now[now.len() - 1] == channel);
            }
        }
        assert forall|k: int| 0 <= k < now.len() implies is_open_within(
            c,
            states,
            n,
            #[trigger] now[k],
        ) by {
            if k < before.len() {
                assert(now[k] == before[k]);
                assert(is_open_within(c, states, n - 1, before[k]));
                let i = choose|i: int|
                    0 <= i < n - 1 && states[i] is Open && #[trigger] c.data_channels@[i] == Some(
                        before[k],
                    );
                assert(c.data_channels@[i] == Some(now[k]));
            } else {
                assert(c.data_channels@[n - 1] == Some(now[k]));
            }
        }
    }
}

/// The channel is cached in one of the first `n` slots and open.
pub open spec fn is_open_within(
    c: WebRtcConnection,
    states: Seq<ChannelState>,
    n: int,
    channel: u64,
) -> bool {
    exists|i: int|
        0 <= i < n && states[i] is Open && #[trigger] c.data_channels@[i] == Some(channel)
}

/// A drain begins at the front of the channels that are cached and open, all of them and no
/// others; there are none exactly if no channel is open.
pub proof fn a_drain_is_of_the_open_channels(
    c: WebRtcConnection,
    states: Vec<ChannelState>,
    t: DrainTask,
    any: bool,
    i: int,
    k: int,
)
    requires
        c.wf(),
        states@.len() == CHANNEL_SLOTS,
        call_ensures(WebRtcConnection::drain_data_channels, (&c, &states), t),
        call_ensures(WebRtcConnection::has_open_data_channel, (&c, &states), any),
    ensures
        t.current == 0,
        t.attempt == 0,
        any <==> t.channels@.len() > 0,
        0 <= i < CHANNEL_SLOTS && states@[i] is Open && c.data_channels@[i] is Some
            ==> t.channels@.contains(c.data_channels@[i]->0) && any,
        0 <= k < t.channels@.len() ==> exists|j: int|
            0 <= j < CHANNEL_SLOTS && states@[j] is Open && #[trigger] c.data_channels@[j] == Some(
                t.channels@[k],
            ),
{
    lemma_open_channels(c, states@, CHANNEL_SLOTS as int);
    if t.channels@.len() > 0 {
        let j = choose|j: int|
            0 <= j < CHANNEL_SLOTS && states@[j] is Open && #[trigger] c.data_channels@[j] == Some(
                t.channels@[0],
            );
        assert(c.data_channels@[j] is Some);
    }
    if any {
        let j = choose|j: int|
            0 <= j < CHANNEL_SLOTS && (#[trigger] c.data_channels@[j]) is Some && states@[j]
                is Open;
        assert(t.channels@.contains(c.data_channels@[j]->0));
    }
}

/// An empty buffer lets the drain go on to the next channel at once. One that is not empty is
/// looked at again after a tenth of a second, fifty times in all, and then given up. The drain
/// is done after the last channel.
pub proof fn a_buffer_is_given_fifty_looks(t: &mut DrainTask, event: DrainEvent, a: DrainAction)
    requires
        t.wf(),
        old(t).current < old(t).channels@.len(),
        call_ensures(DrainTask::step, (t, event), a),
    ensures
        final(t).channels == old(t).channels,
        event is Woke ==> *final(t) == *old(t) && a == (DrainAction::Query {
            channel: old(t).channels@[old(t).current as int],
        }),
        event matches DrainEvent::Buffered { amount } ==> {
            let waits = amount > 0 && old(t).attempt < 49;
            &&& a is Sleep <==> waits
            &&& waits ==> a == (DrainAction::Sleep { millis: 100 }) && final(t).current
                == old(t).current && final(t).attempt == old(t).attempt + 1
            &&& !waits ==> final(t).current == old(t).current + 1 && final(t).attempt == 0
            &&& a is Done <==> !waits && old(t).current == old(t).channels@.len() - 1
            &&& a matches DrainAction::Query { channel } ==> channel
                == old(t).channels@[old(t).current + 1]
        },
{
}

/// What is received is forwarded as it is, under its payload type, and more is received for
/// as long as it is taken; a lane that fails, or nobody to take it, ends that.
pub proof fn received_messages_are_forwarded(
    payload_type: PayloadType,
    event: PumpEvent,
    a: PumpAction,
)
    requires
        call_ensures(pump_step, (payload_type, event), a),
    ensures
        a is Stop <==> (event matches PumpEvent::Received(Err(_))) || event == (
        PumpEvent::Forwarded { taken: false }),
        a is Receive <==> event == (PumpEvent::Forwarded { taken: true }),
        a matches PumpAction::Forward { data, payload_type: of } ==> of == payload_type && event
            == PumpEvent::Received(Ok(data)),
{
}

/// H264 and VP8 video and Opus audio can be sent, and nothing else; each is named by its media
/// type and codec.
pub proof fn three_codecs_can_be_sent(
    media_type: &str,
    codec: &str,
    r: Option<&'static str>,
)
    requires
        call_ensures(mime_type, (media_type, codec), r),
    ensures
        r is Some <==> (media_type@ == "video"@ && (codec@ == "H264"@ || codec@ == "VP8"@)) || (
        media_type@ == "audio"@ && codec@ == "OPUS"@),
        r matches Some(m) ==> {
            &&& media_type@ == "video"@ ==> m@ == "video/"@ + codec@
            &&& media_type@ == "audio"@ ==> m@ == "audio/opus"@
        },
{
    reveal_strlit("video");
    reveal_strlit("audio");
    reveal_strlit("H264");
    reveal_strlit("VP8");
    reveal_strlit("OPUS");
    reveal_strlit("video/");
    reveal_strlit("video/H264");
    reveal_strlit("video/VP8");
    assert("video"@[0] != "audio"@[0]);
    assert("H264"@[0] != "VP8"@[0]);
    assert("video/"@ + "H264"@ =~= "video/H264"@);
    assert("video/"@ + "VP8"@ =~= "video/VP8"@);
}

/// A track with an id that is there is used again. Any other is created for a codec that can
/// be sent, in a stream named after its media type, and refused for one that cannot.
pub proof fn a_track_is_added_once(
    c: WebRtcConnection,
    track_id: &str,
    codec: &str,
    media_type: &str,
    r: NetworkResult<TrackPlan>,
    there: Option<u64>,
    mime: Option<&'static str>,
    capital_codec: &str,
)
    requires
        call_ensures(WebRtcConnection::add_media_track, (&c, track_id, codec, media_type), r),
        call_ensures(WebRtcConnection::get_media_track, (&c, track_id), there),
        capital_codec@ == text::in_capitals(codec@),
        call_ensures(mime_type, (media_type, capital_codec), mime),
    ensures
        match (there, mime) {
            (Some(track), _) => r == Ok::<TrackPlan, NetworkError>(TrackPlan::Reuse { track }),
            (None, Some(m)) => r matches Ok(TrackPlan::Create { mime_type, stream_id })
                && mime_type@ == m@ && stream_id@ == "actr-"@ + media_type@,
            (None, None) => r matches Err(NetworkError::WebRtcError(m)) && m@
                == "Unsupported codec: "@ + codec@ + " for "@ + media_type@,
        },
{
}

/// A track that was added is found under its id, with its synchronisation source, and its
/// numbers begin at zero. Tracks with other ids are untouched.
pub proof fn an_added_track_is_found(
    c: &mut WebRtcConnection,
    track_id: &str,
    track: u64,
    sender: u64,
    ssrc: u32,
    wanted: &str,
    before: Option<u64>,
    after: Option<u64>,
    ssrc_before: Option<u32>,
    ssrc_after: Option<u32>,
)
    requires
        c.wf(),
        call_ensures(WebRtcConnection::keep_media_track, (c, track_id, track, sender, ssrc), ())
            || call_ensures(WebRtcConnection::media_track_added, (c, track_id, track, sender), ssrc),
        call_ensures(WebRtcConnection::get_media_track, (&*old(c), wanted), before),
        call_ensures(WebRtcConnection::get_media_track, (&*final(c), wanted), after),
        call_ensures(WebRtcConnection::get_ssrc, (&*old(c), wanted), ssrc_before),
        call_ensures(WebRtcConnection::get_ssrc, (&*final(c), wanted), ssrc_after),
    ensures
        wanted@ == track_id@ ==> after == Some(track) && ssrc_after == Some(ssrc),
        wanted@ != track_id@ ==> after == before && ssrc_after == ssrc_before,
        final(c).track_sequence_numbers@[track_id@] == 0,
        wanted@ != track_id@ && old(c).track_sequence_numbers@.contains_key(wanted@)
            ==> final(c).track_sequence_numbers@[wanted@]
            == old(c).track_sequence_numbers@[wanted@],
        final(c).media_tracks@[track_id@].1 == sender,
        final(c).lane_cache == old(c).lane_cache,
        final(c).data_channels == old(c).data_channels,
{
}

/// A track that was removed is not found any more, and its sender is handed out; another
/// track is. Its numbers go once its sender is gone.
pub proof fn a_removed_track_is_gone(
    c: &mut WebRtcConnection,
    d: &mut WebRtcConnection,
    track_id: &str,
    sender: Option<u64>,
    wanted: &str,
    before: Option<u64>,
    after: Option<u64>,
    ssrc: Option<u32>,
)
    requires
        c.wf(),
        d.wf(),
        call_ensures(WebRtcConnection::remove_media_track, (c, track_id), sender),
        call_ensures(WebRtcConnection::get_media_track, (&*old(c), wanted), before),
        call_ensures(WebRtcConnection::get_media_track, (&*final(c), wanted), after),
        call_ensures(WebRtcConnection::media_track_removed, (d, track_id), ()),
        call_ensures(WebRtcConnection::get_ssrc, (&*final(d), wanted), ssrc),
    ensures
        after == if wanted@ == track_id@ {
            None
        } else {
            before
        },
        sender is Some <==> old(c).media_tracks@.contains_key(track_id@),
        sender is Some ==> sender->0 == old(c).media_tracks@[track_id@].1,
        final(c).track_ssrcs == old(c).track_ssrcs,
        final(c).track_sequence_numbers == old(c).track_sequence_numbers,
        final(c).lane_cache == old(c).lane_cache,
        wanted@ == track_id@ ==> ssrc is None && !final(d).track_sequence_numbers@.contains_key(
            wanted@,
        ),
        wanted@ != track_id@ ==> (ssrc is Some <==> old(d).track_ssrcs@.contains_key(wanted@)),
        final(d).media_tracks == old(d).media_tracks,
{
}

/// Two numbers of a track that are taken one after the other follow each other; after 65535
/// comes zero. A track that is not there has none, and those of other tracks stay.
pub proof fn numbers_of_a_track_follow_each_other(
    c: &mut WebRtcConnection,
    d: &mut WebRtcConnection,
    track_id: &str,
    first: Option<u16>,
    second: Option<u16>,
    other: Seq<char>,
)
    requires
        c.wf(),
        call_ensures(WebRtcConnection::next_sequence_number, (c, track_id), first),
        *old(d) == *final(c),
        call_ensures(WebRtcConnection::next_sequence_number, (d, track_id), second),
    ensures
        first is Some <==> old(c).track_sequence_numbers@.contains_key(track_id@),
        second is Some <==> first is Some,
        first is Some ==> first->0 == old(c).track_sequence_numbers@[track_id@] && second->0 == (
        first->0 + 1) % 0x10000,
        other != track_id@ && old(c).track_sequence_numbers@.contains_key(other)
            ==> final(c).track_sequence_numbers@.contains_key(other)
            && final(c).track_sequence_numbers@[other] == old(c).track_sequence_numbers@[other],
        final(c).media_tracks == old(c).media_tracks,
        final(c).track_ssrcs == old(c).track_ssrcs,
{
}

/// Every channel of a drain is asked for in its turn, and after the last the drain is done.
pub proof fn every_channel_is_asked_for_in_turn(t: DrainTask, a: DrainAction)
    requires
        t.wf(),
        call_ensures(DrainTask::action, (&t,), a),
    ensures
        t.current < t.channels@.len() ==> (a matches DrainAction::Query { channel } && channel
            == t.channels@[t.current as int]),
        t.current == t.channels@.len() <==> a is Done,
{
}

/// A connection tells the peer and the session that it was made for, and has no channels, lanes
/// or tracks yet.
pub proof fn a_connection_tells_what_it_was_made_for(
    peer_id: ActrId,
    session_id: u64,
    c: WebRtcConnection,
    p: &ActrId,
    s: u64,
    v: &Vec<Option<u64>>,
    i: int,
)
    requires
        call_ensures(WebRtcConnection::new, (peer_id, session_id), c),
        call_ensures(WebRtcConnection::peer_id, (&c,), p),
        call_ensures(WebRtcConnection::session_id, (&c,), s),
        call_ensures(WebRtcConnection::data_channels, (&c,), v),
    ensures
        *p == peer_id,
        s == session_id,
        v@.len() == 4,
        c.lane_cache@.len() == 4,
        0 <= i < 4 ==> v@[i] is None && c.lane_cache@[i] is None,
        c.media_tracks@.len() == 0,
        c.track_sequence_numbers@.len() == 0,
        c.track_ssrcs@.len() == 0,
{
}

/// The cached channels that a connection tells are those that it has.
pub proof fn the_told_channels_are_the_cached_ones(c: WebRtcConnection, v: &Vec<Option<u64>>)
    requires
        call_ensures(WebRtcConnection::data_channels, (&c,), v),
    ensures
        v@ == c.data_channels@,
{
}

/// A track is planned exactly for a codec that can be sent, under the type of that codec and in a
/// stream named after its media type. A refusal names the codec as it was given.
pub proof fn a_track_is_planned_for_a_codec_that_can_be_sent(
    codec: &str,
    media_type: &str,
    capital_codec: &str,
    r: NetworkResult<TrackPlan>,
    mime: Option<&'static str>,
)
    requires
        call_ensures(plan_track, (codec, media_type, capital_codec), r),
        call_ensures(mime_type, (media_type, capital_codec), mime),
    ensures
        r is Ok <==> mime is Some,
        r matches Ok(plan) ==> (plan matches TrackPlan::Create { mime_type, stream_id }
            && mime_type@ == mime->0@ && stream_id@ == "actr-"@ + media_type@),
        r matches Err(e) ==> (e matches NetworkError::WebRtcError(m) && m@
            == "Unsupported codec: "@ + codec@ + " for "@ + media_type@),
{
}

}
