//! Data lanes: one transport path for messages of one kind.
//!
//! A lane is driven from outside. [`DataLane::send`] opens a [`SendTask`], which
//! says what to do next after each event; [`DataLane::recv`] and
//! [`DataLane::try_recv`] take what the receive queue gave.
use crate::error::{NetworkError, NetworkResult};
use crate::octets::{octet_count, octet_slice, share, shared_octets};
use crate::protocol::{PayloadType, RpcEnvelope};
use crate::text::{join, join3, push_decimal};
use crate::transport::fragment::{
    decode_fragment_header, fragment_message, push_be32, push_octets, ReassemblyBuffer,
    FRAGMENT_HEADER_SIZE, MAX_FRAGMENTS,
};
use crate::transport::{fragment, reassembly};
use crate::{octets, text};
use vstd::prelude::*;
use vstd::string::StringExecFns;

verus! {

/// How long a send waits for its data channel to open, in nanoseconds.
pub const OPEN_TIMEOUT_NANOS: u128 = 5_000_000_000;

/// The pause between two looks at a channel that is not open yet.
pub const OPEN_POLL_MILLIS: u64 = 10;

/// The state of a data channel.
#[derive(Debug, Clone, Copy, PartialEq, Eq, Structural)]
pub enum ChannelState {
    Unspecified,
    Connecting,
    Open,
    Closing,
    Closed,
}

impl ChannelState {
    /// The name of the state.
    pub open spec fn spec_name(self) -> Seq<char> {
        match self {
            ChannelState::Unspecified => "Unspecified"@,
            ChannelState::Connecting => "Connecting"@,
            ChannelState::Open => "Open"@,
            ChannelState::Closing => "Closing"@,
            ChannelState::Closed => "Closed"@,
        }
    }

    /// The name of the state.
    pub fn name(self) -> (s: &'static str)
        ensures
            s@ == self.spec_name(),
    {
        match self {
            ChannelState::Unspecified => "Unspecified",
            ChannelState::Connecting => "Connecting",
            ChannelState::Open => "Open",
            ChannelState::Closing => "Closing",
            ChannelState::Closed => "Closed",
        }
    }
}

/// A transport path for messages.
pub enum DataLane {
    /// Over a data channel: messages are fragmented and reassembled.
    WebRtcDataChannel {
        /// The id of the next message.
        msg_id_counter: u32,
        /// Messages of which fragments are missing.
        reassembly: ReassemblyBuffer,
    },
    /// Within the process: envelopes are handed over as they are.
    Mpsc { payload_type: PayloadType },
    /// Over a shared web socket: messages are framed with their payload type.
    WebSocket { payload_type: PayloadType },
}

/// Which transport a lane runs over.
#[derive(Debug, Clone, Copy, PartialEq, Eq, Structural)]
pub enum LaneKind {
    WebRtcDataChannel,
    Mpsc,
    WebSocket,
}

/// A send under way.
#[derive(Debug)]
pub enum SendTask {
    /// Waiting for the data channel to open.
    Opening { data: bytes::Bytes },
    /// Writing frames in order; `next` is the one being written.
    Writing { kind: LaneKind, frames: Vec<bytes::Bytes>, next: usize },
    /// Nothing is left to do.
    Finished,
}

/// What happened to the last action of a send.
#[derive(Debug)]
pub enum SendEvent {
    /// The channel was looked at, this long after the send began.
    State { state: ChannelState, elapsed_nanos: u128 },
    /// The pause is over.
    Woke,
    /// The frame was written.
    Written,
    /// The frame could not be written.
    WriteFailed { reason: String },
    /// There is no socket to write to.
    NotConnected,
}

/// What a send does next.
#[derive(Debug)]
pub enum SendAction {
    /// Look at the state of the data channel.
    CheckState,
    /// Pause.
    Sleep { millis: u64 },
    /// Write this frame.
    Write { frame: bytes::Bytes },
    /// Return this.
    Finish { result: NetworkResult<()> },
}

/// What a receive queue gave without waiting.
#[derive(Debug)]
pub enum Polled {
    Data(bytes::Bytes),
    Empty,
    Disconnected,
}

/// Whether a receive is over.
#[derive(Debug)]
pub enum Received {
    /// Return this message, or that there is none.
    Return(Option<bytes::Bytes>),
    /// Take the next item of the queue.
    ReadOn,
}

/// A message framed for a web socket: payload type, length (its low 32 bits,
/// big-endian), octets.
pub open spec fn websocket_framed(payload_type: PayloadType, data: Seq<u8>) -> Seq<u8> {
    seq![payload_type.spec_code()] + fragment::be32((data.len() % 0x1_0000_0000) as u32) + data
}

/// Frames a message for a web socket.
pub fn websocket_frame(payload_type: PayloadType, data: &bytes::Bytes) -> (b: bytes::Bytes)
    ensures
        octets::of(b) == websocket_framed(payload_type, octets::of(*data)),
{
    let mut buf: Vec<u8> = Vec::new();
    buf.push(payload_type.code());
    let len: usize = octet_count(data);
    push_be32(&mut buf, (len as u64 % 0x1_0000_0000) as u32);
    push_octets(&mut buf, octet_slice(data));
    assert(buf@ =~= websocket_framed(payload_type, octets::of(*data)));
    shared_octets(buf)
}

/// The message of the error for a channel that is closing or closed.
pub open spec fn closed_message(state: ChannelState) -> Seq<char> {
    "DataChannel closed: "@ + state.spec_name()
}

/// The message of the error for a channel that did not open in time.
pub open spec fn open_timeout_message(state: ChannelState) -> Seq<char> {
    "DataChannel open timeout: "@ + state.spec_name()
}

/// The error that a failed write of frame `index` out of `count` becomes.
pub open spec fn is_write_error(
    e: NetworkError,
    kind: LaneKind,
    count: nat,
    index: nat,
    reason: Seq<char>,
) -> bool {
    if kind is WebSocket {
        e matches NetworkError::SendError(m) && m@ == "WebSocket send failed: "@ + reason
    } else if count == 1 {
        e matches NetworkError::DataChannelError(m) && m@ == "Send failed: "@ + reason
    } else {
        e matches NetworkError::DataChannelError(m) && m@ == "Send fragment "@ + text::decimal(index)
            + " failed: "@ + reason
    }
}

/// The frames are those of `data` on a data channel, under `msg_id`. There are few enough
/// to be counted, and one buffer holds `data`.
pub open spec fn are_fragments(frames: Seq<bytes::Bytes>, msg_id: u32, data: Seq<u8>) -> bool {
    &&& data.len() <= isize::MAX
    &&& fragment::fragments_needed(data.len()) <= MAX_FRAGMENTS
    &&& frames.len() == fragment::fragments_needed(data.len())
    &&& forall|k: int|
        0 <= k < frames.len() ==> octets::of(#[trigger] frames[k]) == fragment::frame(
            fragment::fragment_of(msg_id, data, k),
        )
}

/// A send once the frame being written is written: the next frame follows, or nothing is
/// left to do.
pub open spec fn frame_written(task: SendTask) -> SendTask {
    match task {
        SendTask::Writing { kind, frames, next } if next + 1 < frames@.len() => SendTask::Writing {
            kind,
            frames,
            next: (next + 1) as usize,
        },
        _ => SendTask::Finished,
    }
}

/// A send once this many frames more are written.
pub open spec fn frames_written(task: SendTask, n: nat) -> SendTask
    decreases n,
{
    if n == 0 {
        task
    } else {
        frame_written(frames_written(task, (n - 1) as nat))
    }
}

/// The send ends with this error.
pub open spec fn fails_with_channel_error(action: SendAction, message: Seq<char>) -> bool {
    action matches SendAction::Finish { result } && (result matches Err(
        NetworkError::DataChannelError(m),
    ) && m@ == message)
}

impl SendTask {
    /// The task is between two frames that exist.
    pub open spec fn wf(&self) -> bool {
        match self {
            SendTask::Writing { kind, frames, next } => *next < frames@.len() && !(kind is Mpsc),
            _ => true,
        }
    }

    /// The event answers the task's last action.
    pub open spec fn expects(&self, event: SendEvent) -> bool {
        match self {
            SendTask::Opening { .. } => event is State || event is Woke,
            SendTask::Writing { kind, .. } => event is Written || event is WriteFailed || (event
                is NotConnected && kind is WebSocket),
            SendTask::Finished => false,
        }
    }

    /// Takes an event and says what to do next.
    ///
    /// A channel that is open gets the next message id and the message's
    /// fragments. One that is closing or closed, or that is not open after five
    /// seconds, fails the send. Frames are written in order until one fails.
    pub fn step(&mut self, lane: &mut DataLane, event: SendEvent) -> (action: SendAction)
        requires
            old(self).wf(),
            old(self).expects(event),
            *old(self) is Opening ==> *old(lane) is WebRtcDataChannel,
        ensures
            final(self).wf(),
            match (*old(self), event) {
                (SendTask::Opening { data }, SendEvent::Woke) => {
                    &&& action is CheckState
                    &&& *final(self) == *old(self)
                    &&& *final(lane) == *old(lane)
                },
                (SendTask::Opening { data }, SendEvent::State { state, elapsed_nanos }) => {
                    let id = old(lane)->msg_id_counter;
                    let count = fragment::fragments_needed(octets::of(data).len());
                    if state is Open {
                        &&& *final(lane) == (DataLane::WebRtcDataChannel {
                            msg_id_counter: id.wrapping_add(1),
                            reassembly: old(lane)->reassembly,
                        })
                        &&& if count <= MAX_FRAGMENTS {
                            &&& *final(self) matches SendTask::Writing { kind, frames, next }
                            &&& kind is WebRtcDataChannel && next == 0
                            &&& are_fragments(frames@, id, octets::of(data))
                            &&& action matches SendAction::Write { frame }
                            &&& octets::of(frame) == octets::of(frames@[0])
                        } else {
                            &&& *final(self) is Finished
                            &&& fails_with_channel_error(
                                action,
                                fragment::too_large_message(octets::of(data).len()),
                            )
                        }
                    } else {
                        &&& *final(lane) == *old(lane)
                        &&& if state is Closed || state is Closing {
                            &&& *final(self) is Finished
                            &&& fails_with_channel_error(action, closed_message(state))
                        } else if elapsed_nanos > OPEN_TIMEOUT_NANOS {
                            &&& *final(self) is Finished
                            &&& fails_with_channel_error(action, open_timeout_message(state))
                        } else {
                            &&& *final(self) == *old(self)
                            &&& action == (SendAction::Sleep { millis: OPEN_POLL_MILLIS })
                        }
                    }
                },
                (SendTask::Writing { kind, frames, next }, SendEvent::Written) => {
                    &&& *final(lane) == *old(lane)
                    &&& *final(self) == frame_written(*old(self))
                    &&& if next + 1 < frames@.len() {
                        &&& action matches SendAction::Write { frame }
                        &&& octets::of(frame) == octets::of(frames@[next + 1])
                    } else {
                        action == (SendAction::Finish { result: Ok(()) })
                    }
                },
                (SendTask::Writing { kind, frames, next }, SendEvent::WriteFailed { reason }) => {
                    &&& *final(lane) == *old(lane)
                    &&& *final(self) is Finished
                    &&& action matches SendAction::Finish { result: Err(e) }
                    &&& is_write_error(e, kind, frames@.len(), next as nat, reason@)
                },
                (SendTask::Writing { .. }, SendEvent::NotConnected) => {
                    &&& *final(lane) == *old(lane)
                    &&& *final(self) is Finished
                    &&& action matches SendAction::Finish { result: Err(NetworkError::ConnectionError(m)) }
                    &&& m@ == "WebSocket not connected"@
                },
                _ => true,
            },
    {
        let mut task = SendTask::Finished;
        std::mem::swap(&mut task, self);
        match task {
            SendTask::Opening { data } => match event {
                SendEvent::State { state, elapsed_nanos } => {
                    if let ChannelState::Open = state {
                        let id: u32 = lane.take_msg_id();
                        match fragment_message(id, &data) {
                            Ok(frames) => {
                                let frame = share(&frames[0]);
                                *self = SendTask::Writing {
                                    kind: LaneKind::WebRtcDataChannel,
                                    frames,
                                    next: 0,
                                };
                                SendAction::Write { frame }
                            },
                            Err(e) => SendAction::Finish { result: Err(e) },
                        }
                    } else if state == ChannelState::Closed || state == ChannelState::Closing {
                        let m = join("DataChannel closed: ", state.name());
                        SendAction::Finish { result: Err(NetworkError::DataChannelError(m)) }
                    } else if elapsed_nanos > OPEN_TIMEOUT_NANOS {
                        let m = join("DataChannel open timeout: ", state.name());
                        SendAction::Finish { result: Err(NetworkError::DataChannelError(m)) }
                    } else {
                        *self = SendTask::Opening { data };
                        SendAction::Sleep { millis: OPEN_POLL_MILLIS }
                    }
                },
                _ => {
                    *self = SendTask::Opening { data };
                    SendAction::CheckState
                },
            },
            SendTask::Writing { kind, frames, next } => match event {
                SendEvent::Written => {
                    if frames.len() - next > 1 {
                        let frame = share(&frames[next + 1]);
                        *self = SendTask::Writing { kind, frames, next: next + 1 };
                        SendAction::Write { frame }
                    } else {
                        SendAction::Finish { result: Ok(()) }
                    }
                },
                SendEvent::WriteFailed { reason } => {
                    let e = write_error(kind, frames.len(), next, &reason);
                    SendAction::Finish { result: Err(e) }
                },
                _ => {
                    let m = "WebSocket not connected".to_owned();
                    SendAction::Finish { result: Err(NetworkError::ConnectionError(m)) }
                },
            },
            SendTask::Finished => SendAction::Finish { result: Ok(()) },
        }
    }
}

fn write_error(kind: LaneKind, count: usize, index: usize, reason: &String) -> (e: NetworkError)
    ensures
        is_write_error(e, kind, count as nat, index as nat, reason@),
{
    if let LaneKind::WebSocket = kind {
        NetworkError::SendError(join("WebSocket send failed: ", reason.as_str()))
    } else if count == 1 {
        NetworkError::DataChannelError(join("Send failed: ", reason.as_str()))
    } else {
        let mut m = "Send fragment ".to_owned();
        push_decimal(&mut m, index as u64);
        m.append(" failed: ");
        m.append(reason.as_str());
        NetworkError::DataChannelError(m)
    }
}

impl DataLane {
    /// A lane within the process.
    pub fn mpsc(payload_type: PayloadType) -> (lane: Self)
        ensures
            lane == (DataLane::Mpsc { payload_type }),
    {
        DataLane::Mpsc { payload_type }
    }

    /// A lane within the process whose receive queue has other readers too.
    pub fn mpsc_shared(payload_type: PayloadType) -> (lane: Self)
        ensures
            lane == (DataLane::Mpsc { payload_type }),
    {
        DataLane::Mpsc { payload_type }
    }

    /// A lane over a data channel: ids start at zero and nothing is pending.
    pub fn webrtc_data_channel() -> (lane: Self)
        ensures
            lane.wf(),
            lane matches DataLane::WebRtcDataChannel { msg_id_counter, reassembly }
                && msg_id_counter == 0 && reassembly@ == Map::<u32, fragment::Partial>::empty(),
    {
        DataLane::WebRtcDataChannel { msg_id_counter: 0, reassembly: ReassemblyBuffer::new() }
    }

    /// A lane over a web socket.
    pub fn websocket(payload_type: PayloadType) -> (lane: Self)
        ensures
            lane == (DataLane::WebSocket { payload_type }),
    {
        DataLane::WebSocket { payload_type }
    }

    /// The lane's reassembly buffer is well formed.
    pub open spec fn wf(&self) -> bool {
        match self {
            DataLane::WebRtcDataChannel { reassembly, .. } => reassembly.wf(),
            _ => true,
        }
    }

    /// One buffer can hold the message that a raw item of the receive queue completes, if
    /// it completes one.
    pub open spec fn fits(&self, raw: Seq<u8>) -> bool {
        match self {
            DataLane::WebRtcDataChannel { reassembly, .. } => raw.len() < FRAGMENT_HEADER_SIZE
                || fragment::parsed(raw).total == 1 || reassembly.room_for(fragment::parsed(raw)),
            _ => true,
        }
    }

    /// Whether one buffer can hold the message that a raw item of the receive queue
    /// completes, if it completes one.
    pub fn has_room(&self, raw: &bytes::Bytes) -> (r: bool)
        requires
            self.wf(),
        ensures
            r == self.fits(octets::of(*raw)),
    {
        match self {
            DataLane::WebRtcDataChannel { reassembly, .. } => {
                match decode_fragment_header(share(raw)) {
                    Ok((msg_id, index, total, payload)) => total == 1 || reassembly.has_room(
                        msg_id,
                        index,
                        total,
                        &payload,
                    ),
                    Err(_) => true,
                }
            },
            _ => true,
        }
    }

    fn take_msg_id(&mut self) -> (id: u32)
        requires
            *old(self) is WebRtcDataChannel,
        ensures
            id == old(self)->msg_id_counter,
            *final(self) == (DataLane::WebRtcDataChannel {
                msg_id_counter: id.wrapping_add(1),
                reassembly: old(self)->reassembly,
            }),
    {
        match self {
            DataLane::WebRtcDataChannel { msg_id_counter, .. } => {
                let id: u32 = *msg_id_counter;
                *msg_id_counter = id.wrapping_add(1);
                id
            },
            _ => 0,
        }
    }

    /// Begins to send a message.
    pub fn send(&self, data: bytes::Bytes) -> (r: (SendTask, SendAction))
        ensures
            r.0.wf(),
            match self {
                DataLane::WebRtcDataChannel { .. } => r.0 == (SendTask::Opening { data })
                    && r.1 is CheckState,
                DataLane::Mpsc { .. } => r.0 is Finished && (r.1 matches SendAction::Finish {
                    result: Err(NetworkError::InvalidOperation(m)),
                } && m@ == "Mpsc DataLane requires send_envelope(), not send(bytes)"@),
                DataLane::WebSocket { payload_type } => {
                    &&& r.0 matches SendTask::Writing { kind, frames, next }
                    &&& kind is WebSocket && next == 0 && frames@.len() == 1
                    &&& octets::of(frames@[0]) == websocket_framed(*payload_type, octets::of(data))
                    &&& r.1 matches SendAction::Write { frame }
                    &&& octets::of(frame) == octets::of(frames@[0])
                },
            },
    {
        match self {
            DataLane::WebRtcDataChannel { .. } => (SendTask::Opening { data }, SendAction::CheckState),
            DataLane::Mpsc { .. } => {
                let m = "Mpsc DataLane requires send_envelope(), not send(bytes)".to_owned();
                (
                    SendTask::Finished,
                    SendAction::Finish { result: Err(NetworkError::InvalidOperation(m)) },
                )
            },
            DataLane::WebSocket { payload_type } => {
                let frame = websocket_frame(*payload_type, &data);
                let mut frames: Vec<bytes::Bytes> = Vec::new();
                frames.push(share(&frame));
                (
                    SendTask::Writing { kind: LaneKind::WebSocket, frames, next: 0 },
                    SendAction::Write { frame },
                )
            },
        }
    }

    /// The result of handing an envelope to the lane's queue, `delivered` saying
    /// whether the queue took it. Only lanes within the process have such a queue.
    pub fn send_envelope(&self, delivered: bool) -> (r: NetworkResult<()>)
        ensures
            match self {
                DataLane::Mpsc { .. } => if delivered {
                    r is Ok
                } else {
                    r matches Err(NetworkError::ChannelClosed(m)) && m@ == "Mpsc channel closed"@
                },
                _ => r matches Err(NetworkError::InvalidOperation(m)) && m@
                    == "send_envelope() only supports Mpsc DataLane"@,
            },
    {
        match self {
            DataLane::Mpsc { .. } => if delivered {
                Ok(())
            } else {
                Err(NetworkError::ChannelClosed("Mpsc channel closed".to_owned()))
            },
            _ => Err(
                NetworkError::InvalidOperation(
                    "send_envelope() only supports Mpsc DataLane".to_owned(),
                ),
            ),
        }
    }

    fn accept(&mut self, raw: bytes::Bytes) -> (r: NetworkResult<Option<bytes::Bytes>>)
        requires
            old(self).wf(),
            *old(self) is WebRtcDataChannel,
            old(self).fits(octets::of(raw)),
        ensures
            final(self).wf(),
            accepts(*old(self), octets::of(raw), *final(self), r),
    {
        match decode_fragment_header(raw) {
            Ok((msg_id, index, total, payload)) => {
                if total == 1 {
                    return Ok(Some(payload));
                }
                match self {
                    DataLane::WebRtcDataChannel { reassembly, .. } => {
                        Ok(reassembly.insert(msg_id, index, total, payload))
                    },
                    _ => Ok(None),
                }
            },
            Err(e) => Err(e),
        }
    }

    /// Takes an item of the receive queue; `None` says that the queue is closed.
    ///
    /// Returns the message that is complete now, or that more items are needed.
    pub fn recv(&mut self, item: Option<bytes::Bytes>) -> (r: NetworkResult<Received>)
        requires
            old(self).wf(),
            item matches Some(raw) ==> old(self).fits(octets::of(raw)),
        ensures
            final(self).wf(),
            match (*old(self), item) {
                (DataLane::Mpsc { .. }, _) => *final(self) == *old(self) && (r matches Err(
                    NetworkError::InvalidOperation(m),
                ) && m@ == "Mpsc DataLane requires recv_envelope(), not recv()"@),
                (_, None) => *final(self) == *old(self) && (r matches Err(
                    NetworkError::ChannelClosed(m),
                ) && m@ == "DataLane receiver closed"@),
                (DataLane::WebSocket { .. }, Some(raw)) => *final(self) == *old(self) && r == Ok::<
                    Received,
                    NetworkError,
                >(Received::Return(Some(raw))),
                (DataLane::WebRtcDataChannel { .. }, Some(raw)) => receives(
                    *old(self),
                    octets::of(raw),
                    *final(self),
                    r,
                ),
            },
    {
        if let DataLane::Mpsc { .. } = self {
            let m = "Mpsc DataLane requires recv_envelope(), not recv()".to_owned();
            return Err(NetworkError::InvalidOperation(m));
        }
        let raw = match item {
            Some(raw) => raw,
            None => {
                return Err(NetworkError::ChannelClosed("DataLane receiver closed".to_owned()));
            },
        };
        if let DataLane::WebSocket { .. } = self {
            return Ok(Received::Return(Some(raw)));
        }
        match self.accept(raw) {
            Ok(Some(message)) => Ok(Received::Return(Some(message))),
            Ok(None) => Ok(Received::ReadOn),
            Err(e) => Err(e),
        }
    }

    /// Hands on an envelope of the receive queue; `None` says that the queue is
    /// closed. Only lanes within the process have envelopes.
    pub fn recv_envelope(&self, item: Option<RpcEnvelope>) -> (r: NetworkResult<RpcEnvelope>)
        ensures
            match (self, item) {
                (DataLane::Mpsc { .. }, Some(envelope)) => r == Ok::<RpcEnvelope, NetworkError>(
                    envelope,
                ),
                (DataLane::Mpsc { .. }, None) => r matches Err(NetworkError::ChannelClosed(m))
                    && m@ == "Mpsc channel closed"@,
                _ => r matches Err(NetworkError::InvalidOperation(m)) && m@
                    == "recv_envelope() only supports Mpsc DataLane"@,
            },
    {
        match self {
            DataLane::Mpsc { .. } => match item {
                Some(envelope) => Ok(envelope),
                None => Err(NetworkError::ChannelClosed("Mpsc channel closed".to_owned())),
            },
            _ => Err(
                NetworkError::InvalidOperation(
                    "recv_envelope() only supports Mpsc DataLane".to_owned(),
                ),
            ),
        }
    }

    /// Takes what the receive queue gave without waiting.
    ///
    /// Returns the message that is complete now, that there is none, or that the
    /// next item is to be taken.
    pub fn try_recv(&mut self, item: Polled) -> (r: NetworkResult<Received>)
        requires
            old(self).wf(),
            item matches Polled::Data(raw) ==> old(self).fits(octets::of(raw)),
        ensures
            final(self).wf(),
            match (*old(self), item) {
                (DataLane::Mpsc { .. }, _) => *final(self) == *old(self) && (r matches Err(
                    NetworkError::InvalidOperation(m),
                ) && m@ == "Mpsc Lane requires try_recv_envelope(), not try_recv()"@),
                (_, Polled::Empty) => *final(self) == *old(self) && r == Ok::<
                    Received,
                    NetworkError,
                >(Received::Return(None)),
                (_, Polled::Disconnected) => *final(self) == *old(self) && (r matches Err(
                    NetworkError::ChannelClosed(m),
                ) && m@ == "Lane receiver closed"@),
                (DataLane::WebSocket { .. }, Polled::Data(raw)) => *final(self) == *old(self) && r
                    == Ok::<Received, NetworkError>(Received::Return(Some(raw))),
                (DataLane::WebRtcDataChannel { .. }, Polled::Data(raw)) => receives(
                    *old(self),
                    octets::of(raw),
                    *final(self),
                    r,
                ),
            },
    {
        if let DataLane::Mpsc { .. } = self {
            let m = "Mpsc Lane requires try_recv_envelope(), not try_recv()".to_owned();
            return Err(NetworkError::InvalidOperation(m));
        }
        let raw = match item {
            Polled::Data(raw) => raw,
            Polled::Empty => {
                return Ok(Received::Return(None));
            },
            Polled::Disconnected => {
                return Err(NetworkError::ChannelClosed("Lane receiver closed".to_owned()));
            },
        };
        if let DataLane::WebSocket { .. } = self {
            return Ok(Received::Return(Some(raw)));
        }
        match self.accept(raw) {
            Ok(Some(message)) => Ok(Received::Return(Some(message))),
            Ok(None) => Ok(Received::ReadOn),
            Err(e) => Err(e),
        }
    }

    /// The name of the lane's transport.
    pub open spec fn spec_lane_type(&self) -> Seq<char> {
        match self {
            DataLane::WebRtcDataChannel { .. } => "WebRtcDataChannel"@,
            DataLane::Mpsc { .. } => "Mpsc"@,
            DataLane::WebSocket { .. } => "WebSocket"@,
        }
    }

    /// The name of the lane's transport.
    pub fn lane_type(&self) -> (s: &'static str)
        ensures
            s@ == self.spec_lane_type(),
    {
        match self {
            DataLane::WebRtcDataChannel { .. } => "WebRtcDataChannel",
            DataLane::Mpsc { .. } => "Mpsc",
            DataLane::WebSocket { .. } => "WebSocket",
        }
    }

    /// The lane as it appears in diagnostics.
    pub fn describe(&self) -> (s: String)
        ensures
            match self {
                DataLane::WebRtcDataChannel { .. } => s@ == "DataLane::WebRtcDataChannel(..)"@,
                DataLane::Mpsc { .. } => s@ == "DataLane::Mpsc(..)"@,
                DataLane::WebSocket { payload_type } => s@ == "DataLane::WebSocket(type="@
                    + payload_type.spec_name() + ")"@,
            },
    {
        match self {
            DataLane::WebRtcDataChannel { .. } => "DataLane::WebRtcDataChannel(..)".to_owned(),
            DataLane::Mpsc { .. } => "DataLane::Mpsc(..)".to_owned(),
            DataLane::WebSocket { payload_type } => join3(
                "DataLane::WebSocket(type=",
                payload_type.name(),
                ")",
            ),
        }
    }
}

/// What a data channel lane does with a raw item.
pub open spec fn accepts(
    before: DataLane,
    raw: Seq<u8>,
    after: DataLane,
    r: NetworkResult<Option<bytes::Bytes>>,
) -> bool {
    &&& after is WebRtcDataChannel
    &&& after->msg_id_counter == before->msg_id_counter
    &&& if raw.len() < FRAGMENT_HEADER_SIZE {
        &&& after == before
        &&& r matches Err(NetworkError::DataChannelError(m))
        &&& m@ == fragment::too_short_message(raw.len())
    } else {
        let (pending, message) = reassembly::received(
            before->reassembly@,
            fragment::parsed(raw),
        );
        &&& after->reassembly@ == pending
        &&& r matches Ok(whole)
        &&& fragment::octets_opt(whole) == message
    }
}

/// What a receive on a data channel lane does with a raw item: it returns a
/// message that is complete, and reads on otherwise.
pub open spec fn receives(
    before: DataLane,
    raw: Seq<u8>,
    after: DataLane,
    r: NetworkResult<Received>,
) -> bool {
    match r {
        Ok(Received::Return(Some(message))) => accepts(before, raw, after, Ok(Some(message))),
        Ok(Received::Return(None)) => false,
        Ok(Received::ReadOn) => accepts(before, raw, after, Ok(None)),
        Err(e) => accepts(before, raw, after, Err(e)),
    }
}

/// The frames of a sent message, read at the other end, are all of its fragments.
pub proof fn sent_frames_carry_the_message(
    frames: Seq<bytes::Bytes>,
    msg_id: u32,
    data: Seq<u8>,
)
    requires
        are_fragments(frames, msg_id, data),
    ensures
        ({
            let read = frames.map_values(|b: bytes::Bytes| fragment::parsed(octets::of(b)));
            &&& reassembly::carries(read, msg_id, data)
            &&& forall|i: u16|
                i < fragment::fragments_needed(data.len()) ==> #[trigger] reassembly::arrived(
                    read,
                    msg_id,
                    i,
                )
        }),
{
    let read = frames.map_values(|b: bytes::Bytes| fragment::parsed(octets::of(b)));
    assert forall|k: int| 0 <= k < read.len() implies #[trigger] read[k] == fragment::fragment_of(
        msg_id,
        data,
        k,
    ) by {
        let f = fragment::fragment_of(msg_id, data, k);
        assert(octets::of(frames[k]) == fragment::frame(f));
        fragment::decoding_undoes_encoding(f);
    }
    assert forall|i: u16| i < fragment::fragments_needed(data.len()) implies #[trigger]
        reassembly::arrived(read, msg_id, i) by {
        assert(read[i as int] == fragment::fragment_of(msg_id, data, i as int));
    }
}

/// A send that no write fails writes each of its frames once, in order, and ends with the
/// last.
pub proof fn a_send_writes_every_frame(
    kind: LaneKind,
    frames: Vec<bytes::Bytes>,
    n: nat,
)
    requires
        n <= frames@.len(),
        frames@.len() > 0,
    ensures
        frames_written(SendTask::Writing { kind, frames, next: 0 }, n) == if n < frames@.len() {
            SendTask::Writing { kind, frames, next: n as usize }
        } else {
            SendTask::Finished
        },
    decreases n,
{
    if n > 0 {
        a_send_writes_every_frame(kind, frames, (n - 1) as nat);
        assert(n <= frames.len());
    }
}

/// A sent message whose frames arrive in order comes out whole with the last of
/// them and not before, whatever else is pending under other ids.
pub proof fn a_sent_message_arrives(
    pending: Map<u32, fragment::Partial>,
    frames: Seq<bytes::Bytes>,
    msg_id: u32,
    data: Seq<u8>,
)
    requires
        !pending.contains_key(msg_id),
        are_fragments(frames, msg_id, data),
    ensures
        ({
            let read = frames.map_values(|b: bytes::Bytes| fragment::parsed(octets::of(b)));
            &&& reassembly::handed_on(pending, read, frames.len() - 1) == Some(data)
            &&& forall|k: int|
                0 <= k < frames.len() - 1 ==> (#[trigger] reassembly::handed_on(pending, read, k))
                    is None
            &&& !reassembly::pending_after(pending, read).contains_key(msg_id)
        }),
{
    let read = frames.map_values(|b: bytes::Bytes| fragment::parsed(octets::of(b)));
    let front = read.drop_last();
    let last = (frames.len() - 1) as u16;
    sent_frames_carry_the_message(frames, msg_id, data);
    assert forall|k: int| 0 <= k < read.len() implies #[trigger] read[k] == fragment::fragment_of(
        msg_id,
        data,
        k,
    ) by {
        fragment::decoding_undoes_encoding(fragment::fragment_of(msg_id, data, k));
    }
    assert forall|k: int| 0 <= k < front.len() implies front[k] == read[k] by {}
    assert(!reassembly::arrived(front, msg_id, last));
    reassembly::any_arrival_order_restores_the_message(pending, read, msg_id, data, last);
    assert forall|k: int| 0 <= k < frames.len() - 1 implies (#[trigger] reassembly::handed_on(
        pending,
        read,
        k,
    )) is None by {
        reassembly::an_incomplete_message_is_held_back(pending, front, msg_id, data, last, k);
        assert(front.take(k) =~= read.take(k));
    }
}

/// A receive refuses an item that is too short to hold a header, and any other item it takes.
pub proof fn only_short_items_are_refused(
    before: DataLane,
    raw: Seq<u8>,
    after: DataLane,
    r: NetworkResult<Received>,
)
    requires
        before is WebRtcDataChannel,
        receives(before, raw, after, r),
    ensures
        r is Err <==> raw.len() < FRAGMENT_HEADER_SIZE,
        r is Err ==> r->Err_0 is DataChannelError && after == before,
{
}

/// The receives of these items, one after the other, by the lane's contract: `lanes[k]` is
/// the lane before item `k`, and `results[k]` what its receive returns.
pub open spec fn receives_all(
    lanes: Seq<DataLane>,
    items: Seq<Seq<u8>>,
    results: Seq<NetworkResult<Received>>,
) -> bool {
    &&& lanes.len() == items.len() + 1
    &&& results.len() == items.len()
    &&& lanes[0] is WebRtcDataChannel
    &&& forall|k: int|
        0 <= k < items.len() ==> receives(lanes[k], items[k], #[trigger] lanes[k + 1], results[k])
}

/// The fragments that items of the receive queue hold.
pub open spec fn items_read(items: Seq<Seq<u8>>) -> Seq<fragment::Fragment> {
    items.map_values(|raw: Seq<u8>| fragment::parsed(raw))
}

proof fn lemma_lane_after(
    lanes: Seq<DataLane>,
    items: Seq<Seq<u8>>,
    results: Seq<NetworkResult<Received>>,
    k: int,
)
    requires
        receives_all(lanes, items, results),
        forall|i: int| 0 <= i < items.len() ==> (#[trigger] items[i]).len() >= FRAGMENT_HEADER_SIZE,
        0 <= k <= items.len(),
    ensures
        lanes[k] is WebRtcDataChannel,
        lanes[k]->reassembly@ == reassembly::pending_after(
            lanes[0]->reassembly@,
            items_read(items).take(k),
        ),
    decreases k,
{
    let read = items_read(items);
    if k > 0 {
        lemma_lane_after(lanes, items, results, k - 1);
        assert(receives(lanes[k - 1], items[k - 1], lanes[k - 1 + 1], results[k - 1]));
        assert(read.take(k).drop_last() =~= read.take(k - 1));
        assert(read.take(k).last() == fragment::parsed(items[k - 1]));
    }
}

/// A message that was sent is received once all of its frames have been taken from the
/// queue, in whatever order they are there: each receive but the last reads on, and the
/// last returns the message. Every frame can be received, and nothing of the message stays
/// pending.
pub proof fn a_sent_message_is_received(
    lanes: Seq<DataLane>,
    items: Seq<Seq<u8>>,
    results: Seq<NetworkResult<Received>>,
    frames: Seq<bytes::Bytes>,
    msg_id: u32,
    data: Seq<u8>,
    k: int,
)
    requires
        receives_all(lanes, items, results),
        !lanes[0]->reassembly@.contains_key(msg_id),
        are_fragments(frames, msg_id, data),
        items.to_multiset() == frames.map_values(|b: bytes::Bytes| octets::of(b)).to_multiset(),
        0 <= k < items.len(),
    ensures
        items.len() == frames.len(),
        lanes[k].fits(items[k]),
        k < items.len() - 1 ==> results[k] == Ok::<Received, NetworkError>(Received::ReadOn),
        k == items.len() - 1 ==> (results[k] matches Ok(Received::Return(Some(message)))
            && octets::of(message) == data),
        !lanes[items.len() as int]->reassembly@.contains_key(msg_id),
{
    broadcast use vstd::seq_lib::group_to_multiset_ensures;

    let n = fragment::fragments_needed(data.len());
    let sent = frames.map_values(|b: bytes::Bytes| octets::of(b));
    let read = items_read(items);
    assert(items.len() == items.to_multiset().len());
    assert(sent.len() == sent.to_multiset().len());
    assert forall|i: int| 0 <= i < sent.len() implies fragment::parsed(#[trigger] sent[i])
        == fragment::fragment_of(msg_id, data, i) && sent[i].len() >= FRAGMENT_HEADER_SIZE by {
        assert(octets::of(frames[i]) == fragment::frame(fragment::fragment_of(msg_id, data, i)));
        fragment::decoding_undoes_encoding(fragment::fragment_of(msg_id, data, i));
    }
    assert(sent.no_duplicates());
    sent.lemma_multiset_has_no_duplicates();
    items.lemma_multiset_has_no_duplicates_conv();
    assert forall|j: int| 0 <= j < items.len() implies sent.contains(#[trigger] items[j]) by {
        assert(items.contains(items[j]));
        assert(items.to_multiset().count(items[j]) > 0);
        assert(sent.contains(items[j]));
    }
    assert forall|j: int| 0 <= j < items.len() implies (#[trigger] items[j]).len()
        >= FRAGMENT_HEADER_SIZE && read[j].index < n && read[j] == fragment::fragment_of(
        msg_id,
        data,
        read[j].index as int,
    ) by {
        let i = choose|i: int| 0 <= i < sent.len() && #[trigger] sent[i] == items[j];
        assert(read[j] == fragment::parsed(items[j]));
    }
    let payloads = reassembly::cut(data);
    assert(reassembly::carries_payloads(read, msg_id, payloads)) by {
        assert forall|j: int| 0 <= j < read.len() && (#[trigger] read[j]).msg_id
            == msg_id implies read[j].index < payloads.len() && read[j].total == payloads.len()
            && read[j].payload == payloads[read[j].index as int] by {
            assert(items[j].len() >= FRAGMENT_HEADER_SIZE);
        }
    }
    assert forall|i: u16| i < n implies #[trigger] reassembly::arrived(read, msg_id, i) by {
        assert(sent.contains(sent[i as int]));
        assert(sent.to_multiset().count(sent[i as int]) > 0);
        assert(items.contains(sent[i as int]));
        let j = choose|j: int| 0 <= j < items.len() && items[j] == sent[i as int];
        assert(read[j] == fragment::fragment_of(msg_id, data, i as int));
    }
    assert forall|a: int, b: int|
        0 <= a < b < read.len() && (#[trigger] read[a]).msg_id == msg_id && (
        #[trigger] read[b]).msg_id == msg_id implies read[a].index != read[b].index by {
        let i = choose|i: int| 0 <= i < sent.len() && #[trigger] sent[i] == items[a];
        let j = choose|j: int| 0 <= j < sent.len() && #[trigger] sent[j] == items[b];
        assert(items[a] != items[b]);
        assert(i != j);
        assert(read[a] == fragment::fragment_of(msg_id, data, i));
        assert(read[b] == fragment::fragment_of(msg_id, data, j));
    }
    assert(items[k].len() >= FRAGMENT_HEADER_SIZE);
    assert(read[k].msg_id == msg_id);
    reassembly::arriving_payloads_come_out_by_index(
        lanes[0]->reassembly@,
        read,
        msg_id,
        payloads,
        k,
    );
    let end = items.len() - 1;
    assert(items[end].len() >= FRAGMENT_HEADER_SIZE);
    reassembly::arriving_payloads_come_out_by_index(
        lanes[0]->reassembly@,
        read,
        msg_id,
        payloads,
        end,
    );
    reassembly::chunks_make_the_message(data);
    if k < end {
        assert(read[end].msg_id == msg_id);
        assert(!reassembly::is_last_of(read, msg_id, k));
    }
    lemma_lane_after(lanes, items, results, k);
    lemma_lane_after(lanes, items, results, items.len() as int);
    assert(read.take(items.len() as int) =~= read);
    assert(receives(lanes[k], items[k], lanes[k + 1], results[k]));
}

/// A web socket frame names its payload type and, below 4 GiB, the length of the
/// message, which follows unchanged.
pub proof fn a_websocket_frame_holds_its_message(payload_type: PayloadType, data: Seq<u8>)
    ensures
        ({
            let f = websocket_framed(payload_type, data);
            &&& f[0] == payload_type.spec_code()
            &&& data.len() < 0x1_0000_0000 ==> fragment::read32(f, 1) == data.len()
            &&& f.skip(5) == data
        }),
{
    let f = websocket_framed(payload_type, data);
    assert(f.skip(5) =~= data);
    let len = (data.len() % 0x1_0000_0000) as u32;
    assert(fragment::read32(f, 1) == len);
}

/// The frame that a message is sent in over a web socket begins with the number of its payload
/// type and its length in four octets, and then the message follows unchanged.
pub proof fn a_websocket_frame_is_type_length_and_message(
    payload_type: PayloadType,
    data: bytes::Bytes,
    b: bytes::Bytes,
    code: u8,
)
    requires
        call_ensures(websocket_frame, (payload_type, &data), b),
        call_ensures(PayloadType::code, (payload_type,), code),
    ensures
        ({
            let f = octets::of(b);
            &&& f.len() == octets::of(data).len() + 5
            &&& f[0] == code
            &&& octets::of(data).len() < 0x1_0000_0000 ==> f[1] * 0x1000000 + f[2] * 0x10000 + f[3]
                * 0x100 + f[4] == octets::of(data).len()
            &&& f.skip(5) == octets::of(data)
        }),
{
    a_websocket_frame_holds_its_message(payload_type, octets::of(data));
}

/// A lane is of the kind that it was made as, and says so. A lane over a data channel begins
/// with nothing pending, and numbers messages from zero.
pub proof fn a_lane_is_what_it_was_made_as(
    payload_type: PayloadType,
    own: DataLane,
    shared: DataLane,
    channel: DataLane,
    socket: DataLane,
    a: &'static str,
    b: &'static str,
    c: &'static str,
)
    requires
        call_ensures(DataLane::mpsc, (payload_type,), own),
        call_ensures(DataLane::mpsc_shared, (payload_type,), shared),
        call_ensures(DataLane::webrtc_data_channel, (), channel),
        call_ensures(DataLane::websocket, (payload_type,), socket),
        call_ensures(DataLane::lane_type, (&own,), a),
        call_ensures(DataLane::lane_type, (&channel,), b),
        call_ensures(DataLane::lane_type, (&socket,), c),
    ensures
        own == (DataLane::Mpsc { payload_type }) && shared == own,
        socket == (DataLane::WebSocket { payload_type }),
        channel is WebRtcDataChannel && channel->msg_id_counter == 0 && channel->reassembly@.len()
            == 0,
        a@ == "Mpsc"@ && b@ == "WebRtcDataChannel"@ && c@ == "WebSocket"@,
{
}

/// A message over a data channel waits for the channel to be open, over a web socket it is
/// written at once in its frame, and within the process only envelopes can be sent.
pub proof fn a_send_begins_as_its_lane_asks(
    lane: DataLane,
    data: bytes::Bytes,
    r: (SendTask, SendAction),
    payload_type: PayloadType,
    b: bytes::Bytes,
)
    requires
        call_ensures(DataLane::send, (&lane, data), r),
        call_ensures(websocket_frame, (payload_type, &data), b),
    ensures
        lane is WebRtcDataChannel <==> r.1 is CheckState,
        lane is WebRtcDataChannel ==> r.0 == (SendTask::Opening { data }),
        lane == (DataLane::WebSocket { payload_type }) ==> (r.1 matches SendAction::Write { frame }
            && octets::of(frame) == octets::of(b)) && (r.0 matches SendTask::Writing {
            frames,
            next,
            ..
        } && frames@.len() == 1 && next == 0),
        lane is Mpsc ==> r.0 is Finished && (r.1 matches SendAction::Finish { result } && (
        result matches Err(e) && e is InvalidOperation)),
{
}

/// A channel that is open gets the message's fragments, under an id that no later message has
/// until ids start over. One that is closing or closed fails the send. Any other is looked at
/// again every ten milliseconds, until five seconds are over.
pub proof fn a_send_waits_five_seconds_for_its_channel(
    task: &mut SendTask,
    lane: &mut DataLane,
    data: bytes::Bytes,
    state: ChannelState,
    elapsed_nanos: u128,
    a: SendAction,
    frames: NetworkResult<Vec<bytes::Bytes>>,
    name: &'static str,
)
    requires
        *old(task) == (SendTask::Opening { data }),
        *old(lane) is WebRtcDataChannel,
        call_ensures(
            SendTask::step,
            (task, lane, SendEvent::State { state, elapsed_nanos }),
            a,
        ),
        call_ensures(fragment_message, (old(lane)->msg_id_counter, &data), frames),
        call_ensures(ChannelState::name, (state,), name),
    ensures
        *final(lane) is WebRtcDataChannel,
        final(lane)->reassembly == old(lane)->reassembly,
        state is Open ==> {
            &&& final(lane)->msg_id_counter == (old(lane)->msg_id_counter + 1) % 0x1_0000_0000
            &&& a is Write <==> frames is Ok
            &&& a matches SendAction::Write { frame } ==> octets::of(frame) == octets::of(
                frames->Ok_0@[0],
            )
            &&& frames is Ok ==> (*final(task) matches SendTask::Writing { kind, frames: all, next }
                && kind is WebRtcDataChannel && next == 0 && all@.len() == frames->Ok_0@.len() && (
            forall|i: int|
                0 <= i < all@.len() ==> octets::of(#[trigger] all@[i]) == octets::of(
                    frames->Ok_0@[i],
                )))
            &&& frames is Err ==> *final(task) is Finished && (a matches SendAction::Finish {
                result,
            } && (result matches Err(NetworkError::DataChannelError(m)) && m@
                == frames->Err_0->DataChannelError_0@))
        },
        !(state is Open) ==> *final(lane) == *old(lane),
        state is Closing || state is Closed ==> (a matches SendAction::Finish { result } && (
        result matches Err(NetworkError::DataChannelError(m)) && m@ == "DataChannel closed: "@
            + name@)) && *final(task) is Finished,
        state is Unspecified || state is Connecting ==> {
            &&& a is Sleep <==> elapsed_nanos <= 5_000_000_000
            &&& a is Sleep ==> a == (SendAction::Sleep { millis: 10 }) && *final(task) == *old(task)
            &&& !(a is Sleep) ==> (a matches SendAction::Finish { result } && (result matches Err(
                NetworkError::DataChannelError(m),
            ) && m@ == "DataChannel open timeout: "@ + name@)) && *final(task) is Finished
        },
{
}

/// After a pause the channel is looked at again, and nothing changes.
pub proof fn after_a_pause_the_channel_is_looked_at(
    task: &mut SendTask,
    lane: &mut DataLane,
    data: bytes::Bytes,
    a: SendAction,
)
    requires
        *old(task) == (SendTask::Opening { data }),
        *old(lane) is WebRtcDataChannel,
        call_ensures(SendTask::step, (task, lane, SendEvent::Woke), a),
    ensures
        a is CheckState,
        *final(task) == *old(task),
        *final(lane) == *old(lane),
{
}

/// Frames are written one after the other, and the send ends well with the last. The first that
/// cannot be written ends it with an error: of the socket on a web socket, and of the channel on
/// a data channel.
pub proof fn frames_are_written_in_order(
    task: &mut SendTask,
    lane: &mut DataLane,
    kind: LaneKind,
    frames: Vec<bytes::Bytes>,
    next: usize,
    event: SendEvent,
    a: SendAction,
)
    requires
        *old(task) == (SendTask::Writing { kind, frames, next }),
        old(task).wf(),
        old(task).expects(event),
        call_ensures(SendTask::step, (task, lane, event), a),
    ensures
        *final(lane) == *old(lane),
        event is Written ==> {
            &&& a is Write <==> next + 1 < frames@.len()
            &&& a is Write ==> octets::of(a->frame) == octets::of(frames@[next + 1]) && *final(task)
                == (SendTask::Writing { kind, frames, next: (next + 1) as usize })
            &&& !(a is Write) ==> a == (SendAction::Finish { result: Ok(()) }) && *final(task)
                is Finished
        },
        !(event is Written) ==> *final(task) is Finished && (a matches SendAction::Finish { result }
            && result is Err),
        event is WriteFailed && kind is WebSocket ==> (a->result matches Err(
            NetworkError::SendError(m),
        ) && m@ == "WebSocket send failed: "@ + event->reason@),
        event is WriteFailed && kind is WebRtcDataChannel ==> (a->result matches Err(
            NetworkError::DataChannelError(m),
        ) && m@ == (if frames@.len() == 1 {
            "Send failed: "@
        } else {
            "Send fragment "@ + text::decimal(next as nat) + " failed: "@
        }) + event->reason@),
        event is NotConnected ==> (a->result matches Err(NetworkError::ConnectionError(m)) && m@
            == "WebSocket not connected"@),
{
}

/// Envelopes are handed over within the process alone. There sending one succeeds exactly if
/// the queue took it, and receiving one exactly if the queue gave one, which is handed out as it
/// is.
pub proof fn envelopes_stay_within_the_process(
    lane: DataLane,
    delivered: bool,
    sent: NetworkResult<()>,
    item: Option<RpcEnvelope>,
    got: NetworkResult<RpcEnvelope>,
)
    requires
        call_ensures(DataLane::send_envelope, (&lane, delivered), sent),
        call_ensures(DataLane::recv_envelope, (&lane, item), got),
    ensures
        sent is Ok <==> lane is Mpsc && delivered,
        got is Ok <==> lane is Mpsc && item is Some,
        got is Ok ==> got->Ok_0 == item->0,
        lane is Mpsc && !delivered ==> sent->Err_0 is ChannelClosed,
        lane is Mpsc && item is None ==> got->Err_0 is ChannelClosed,
        !(lane is Mpsc) ==> sent->Err_0 is InvalidOperation && got->Err_0 is InvalidOperation,
{
}

/// Messages come out of a web socket lane as they are. A data channel lane hands out a message
/// that is whole, and otherwise reads on. A queue that is closed is an error, and within the
/// process there are no messages.
pub proof fn a_lane_hands_out_whole_messages(
    lane: &mut DataLane,
    item: Option<bytes::Bytes>,
    r: NetworkResult<Received>,
)
    requires
        lane.wf(),
        item matches Some(raw) ==> lane.fits(octets::of(raw)),
        call_ensures(DataLane::recv, (lane, item), r),
    ensures
        *old(lane) is Mpsc ==> (r matches Err(e) && e is InvalidOperation) && *final(lane)
            == *old(lane),
        !(*old(lane) is Mpsc) && item is None ==> (r matches Err(e) && e is ChannelClosed)
            && *final(lane) == *old(lane),
        *old(lane) is WebSocket && item is Some ==> r == Ok::<Received, NetworkError>(
            Received::Return(item),
        ) && *final(lane) == *old(lane),
        (*old(lane) is WebRtcDataChannel && item is Some) ==> {
            let raw = octets::of(item->0);
            &&& r is Err <==> raw.len() < 8
            &&& raw.len() < 8 ==> r->Err_0 is DataChannelError && *final(lane) == *old(lane)
            &&& raw.len() >= 8 && raw[6] == 0 && raw[7] == 1 ==> (r matches Ok(Received::Return(Some(m)))
                && octets::of(m) == raw.skip(8)) && final(lane)->reassembly@
                == old(lane)->reassembly@
            &&& !(r matches Ok(Received::Return(None)))
        },
        *final(lane) is WebRtcDataChannel <==> *old(lane) is WebRtcDataChannel,
        *old(lane) is WebRtcDataChannel ==> final(lane)->msg_id_counter
            == old(lane)->msg_id_counter,
{
}

/// Not waiting for a message makes no other difference than that there may be none.
pub proof fn not_waiting_only_allows_for_nothing(
    lane: &mut DataLane,
    waiting: &mut DataLane,
    polled: Polled,
    r: NetworkResult<Received>,
    raw: bytes::Bytes,
    w: NetworkResult<Received>,
)
    requires
        lane.wf(),
        *old(lane) == *old(waiting),
        polled matches Polled::Data(raw) ==> lane.fits(octets::of(raw)),
        call_ensures(DataLane::try_recv, (lane, polled), r),
        polled == Polled::Data(raw) ==> call_ensures(DataLane::recv, (waiting, Some(raw)), w),
    ensures
        *old(lane) is Mpsc ==> (r matches Err(e) && e is InvalidOperation),
        !(*old(lane) is Mpsc) && polled is Empty ==> r == Ok::<Received, NetworkError>(
            Received::Return(None),
        ) && *final(lane) == *old(lane),
        !(*old(lane) is Mpsc) && polled is Disconnected ==> (r matches Err(e) && e is ChannelClosed)
            && *final(lane) == *old(lane),
        !(*old(lane) is Mpsc) && polled == Polled::Data(raw) ==> {
            &&& r is Ok <==> w is Ok
            &&& r is Ok ==> (r->Ok_0 is ReadOn <==> w->Ok_0 is ReadOn)
            &&& r is Ok && r->Ok_0 is Return ==> r->Ok_0->Return_0 is Some && w->Ok_0->Return_0 is Some
                && octets::of(r->Ok_0->Return_0->0) == octets::of(w->Ok_0->Return_0->0)
            &&& *old(lane) is WebRtcDataChannel ==> final(lane)->reassembly@
                == final(waiting)->reassembly@
        },
{
}

/// A channel's state is called by its name.
pub proof fn a_state_is_called_by_its_name(state: ChannelState, s: &'static str)
    requires
        call_ensures(ChannelState::name, (state,), s),
    ensures
        state is Unspecified ==> s@ == "Unspecified"@,
        state is Connecting ==> s@ == "Connecting"@,
        state is Open ==> s@ == "Open"@,
        state is Closing ==> s@ == "Closing"@,
        state is Closed ==> s@ == "Closed"@,
{
}

/// In diagnostics a lane is its transport, and over a web socket its payload type too. Room is
/// needed by fragments of a data channel alone.
pub proof fn a_lane_is_described_by_its_transport(
    lane: DataLane,
    s: String,
    payload_type: PayloadType,
    name: &'static str,
    raw: bytes::Bytes,
    room: bool,
)
    requires
        lane.wf(),
        call_ensures(DataLane::describe, (&lane,), s),
        call_ensures(PayloadType::name, (payload_type,), name),
        call_ensures(DataLane::has_room, (&lane, &raw), room),
    ensures
        lane is WebRtcDataChannel ==> s@ == "DataLane::WebRtcDataChannel(..)"@,
        lane is Mpsc ==> s@ == "DataLane::Mpsc(..)"@,
        lane == (DataLane::WebSocket { payload_type }) ==> s@ == "DataLane::WebSocket(type="@
            + name@ + ")"@,
        !(lane is WebRtcDataChannel) ==> room,
        octets::of(raw).len() < 8 ==> room,
        octets::of(raw).len() >= 8 && octets::of(raw)[6] == 0 && octets::of(raw)[7] == 1 ==> room,
{
}

/// What a lane refuses, it refuses in words that name the way to go: envelopes within the process,
/// octets elsewhere. A queue that has ended is told as such.
pub proof fn a_lane_tells_why_it_refuses(
    lane: &mut DataLane,
    polled_lane: &mut DataLane,
    data: bytes::Bytes,
    sent: (SendTask, SendAction),
    delivered: NetworkResult<()>,
    taken: NetworkResult<RpcEnvelope>,
    r: NetworkResult<Received>,
    polled: NetworkResult<Received>,
)
    requires
        lane.wf(),
        *old(polled_lane) == *old(lane),
        call_ensures(DataLane::send, (&*old(lane), data), sent),
        call_ensures(DataLane::send_envelope, (&*old(lane), false), delivered),
        call_ensures(DataLane::recv_envelope, (&*old(lane), None), taken),
        call_ensures(DataLane::recv, (lane, None), r),
        call_ensures(DataLane::try_recv, (polled_lane, Polled::Disconnected), polled),
    ensures
        *old(lane) is Mpsc ==> {
            &&& sent.1 matches SendAction::Finish { result } && (result matches Err(
                NetworkError::InvalidOperation(m),
            ) && m@ == "Mpsc DataLane requires send_envelope(), not send(bytes)"@)
            &&& delivered matches Err(NetworkError::ChannelClosed(m)) && m@
                == "Mpsc channel closed"@
            &&& taken matches Err(NetworkError::ChannelClosed(m)) && m@ == "Mpsc channel closed"@
            &&& r matches Err(NetworkError::InvalidOperation(m)) && m@
                == "Mpsc DataLane requires recv_envelope(), not recv()"@
            &&& polled matches Err(NetworkError::InvalidOperation(m)) && m@
                == "Mpsc Lane requires try_recv_envelope(), not try_recv()"@
        },
        !(*old(lane) is Mpsc) ==> {
            &&& delivered matches Err(NetworkError::InvalidOperation(m)) && m@
                == "send_envelope() only supports Mpsc DataLane"@
            &&& taken matches Err(NetworkError::InvalidOperation(m)) && m@
                == "recv_envelope() only supports Mpsc DataLane"@
            &&& r matches Err(NetworkError::ChannelClosed(m)) && m@ == "DataLane receiver closed"@
            &&& polled matches Err(NetworkError::ChannelClosed(m)) && m@ == "Lane receiver closed"@
        },
{
}

}
