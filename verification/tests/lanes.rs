use actr::error::NetworkError;
use actr::protocol::{PayloadType, RpcEnvelope};
use actr::transport::fragment::{
    decode_fragment_header, encode_fragment_header, fragment_count, fragment_message,
    ReassemblyBuffer, DC_MAX_PAYLOAD_SIZE, FRAGMENT_HEADER_SIZE, MAX_FRAGMENTS,
};
use actr::transport::lane::{
    websocket_frame, ChannelState, DataLane, Polled, Received, SendAction, SendEvent, SendTask,
    OPEN_POLL_MILLIS, OPEN_TIMEOUT_NANOS,
};

use bytes::Bytes;

// ── Fragment headers ──────────────────────────────────────────────────────────

#[test]
fn test_encode_decode_fragment_header_single() {
    let mut buf = Vec::new();
    encode_fragment_header(&mut buf, 42, 0, 1);
    assert_eq!(buf.len(), FRAGMENT_HEADER_SIZE);

    let payload = Bytes::from(b"hello".as_slice().to_vec());
    let mut raw = buf;
    raw.extend_from_slice(&payload);

    let (msg_id, frag_index, total_frags, decoded_payload) =
        decode_fragment_header(Bytes::from(raw)).unwrap();
    assert_eq!(msg_id, 42);
    assert_eq!(frag_index, 0);
    assert_eq!(total_frags, 1);
    assert_eq!(decoded_payload, payload);
}

#[test]
fn test_encode_decode_fragment_header_multi() {
    let mut buf = Vec::new();
    encode_fragment_header(&mut buf, 0xDEAD_BEEF, 3, 7);
    let (msg_id, frag_index, total_frags, _) = decode_fragment_header(Bytes::from(buf)).unwrap();
    assert_eq!(msg_id, 0xDEAD_BEEF);
    assert_eq!(frag_index, 3);
    assert_eq!(total_frags, 7);
}

#[test]
fn a_header_is_written_big_end_first() {
    let mut buf = vec![9u8];
    encode_fragment_header(&mut buf, 0x0102_0304, 0x0506, 0x0708);
    assert_eq!(buf, vec![9, 1, 2, 3, 4, 5, 6, 7, 8]);
}

#[test]
fn test_decode_too_short_returns_error() {
    let short = Bytes::from_static(b"short");
    assert!(decode_fragment_header(short).is_err());
}

#[test]
fn a_short_frame_is_named_with_its_length() {
    match decode_fragment_header(Bytes::from_static(b"short")) {
        Err(NetworkError::DataChannelError(m)) => {
            assert_eq!(m, "fragment too short: 5 bytes (minimum 8)");
        }
        other => panic!("unexpected {other:?}"),
    }
}

#[test]
fn an_empty_payload_is_decoded() {
    let mut buf = Vec::new();
    encode_fragment_header(&mut buf, 1, 0, 1);
    let (_, _, _, payload) = decode_fragment_header(Bytes::from(buf)).unwrap();
    assert!(payload.is_empty());
}

// ── Reassembly ────────────────────────────────────────────────────────────────

#[test]
fn test_reassembly_single_fragment() {
    let mut buf = ReassemblyBuffer::new();
    let payload = Bytes::from_static(b"single");
    let result = buf.insert(1, 0, 1, payload.clone());
    assert_eq!(result, Some(payload));
}

#[test]
fn test_reassembly_two_fragments_in_order() {
    let mut buf = ReassemblyBuffer::new();
    let part0 = Bytes::from_static(b"hello ");
    let part1 = Bytes::from_static(b"world");

    assert!(buf.insert(5, 0, 2, part0).is_none());
    let result = buf.insert(5, 1, 2, part1).unwrap();
    assert_eq!(result, Bytes::from_static(b"hello world"));
}

#[test]
fn test_reassembly_two_fragments_out_of_order() {
    let mut buf = ReassemblyBuffer::new();
    let part0 = Bytes::from_static(b"hello ");
    let part1 = Bytes::from_static(b"world");

    assert!(buf.insert(7, 1, 2, part1).is_none());
    let result = buf.insert(7, 0, 2, part0).unwrap();
    assert_eq!(result, Bytes::from_static(b"hello world"));
}

#[test]
fn test_reassembly_multiple_messages_interleaved() {
    let mut buf = ReassemblyBuffer::new();

    assert!(buf.insert(1, 0, 2, Bytes::from_static(b"A1")).is_none());
    assert!(buf.insert(2, 0, 2, Bytes::from_static(b"B1")).is_none());
    assert!(buf.insert(1, 1, 2, Bytes::from_static(b"A2")).is_some());
    let msg2 = buf.insert(2, 1, 2, Bytes::from_static(b"B2")).unwrap();
    assert_eq!(msg2, Bytes::from_static(b"B1B2"));
}

#[test]
fn a_repeated_fragment_does_not_complete_a_message() {
    let mut buf = ReassemblyBuffer::new();
    assert!(buf.insert(1, 0, 2, Bytes::from_static(b"a")).is_none());
    assert!(buf.insert(1, 0, 2, Bytes::from_static(b"b")).is_none());
    let message = buf.insert(1, 1, 2, Bytes::from_static(b"c")).unwrap();
    assert_eq!(message, Bytes::from_static(b"bc"));
}

#[test]
fn any_order_restores_a_message() {
    let orders: [[u16; 3]; 6] =
        [[0, 1, 2], [0, 2, 1], [1, 0, 2], [1, 2, 0], [2, 0, 1], [2, 1, 0]];
    for order in orders {
        let parts = [
            Bytes::from_static(b"one "),
            Bytes::from_static(b"two "),
            Bytes::from_static(b"three"),
        ];
        let mut buf = ReassemblyBuffer::new();
        assert!(buf.insert(3, order[0], 3, parts[order[0] as usize].clone()).is_none());
        assert!(buf.insert(3, order[1], 3, parts[order[1] as usize].clone()).is_none());
        let message = buf.insert(3, order[2], 3, parts[order[2] as usize].clone()).unwrap();
        assert_eq!(message, Bytes::from_static(b"one two three"));
    }
}

#[test]
fn an_empty_buffer_has_room() {
    let buf = ReassemblyBuffer::new();
    let payload = Bytes::from(vec![0u8; 200 * 1024]);
    assert!(buf.has_room(1, 0, 1, &payload));
    assert!(buf.has_room(1, 5, 3, &payload));
}

// ── How many fragments ────────────────────────────────────────────────────────

#[test]
fn test_fragment_count_small_message() {
    let size = DC_MAX_PAYLOAD_SIZE;
    let count = size.div_ceil(DC_MAX_PAYLOAD_SIZE);
    assert_eq!(count, 1, "message equal to payload size should be 1 fragment");
    assert_eq!(fragment_count(size), 1);
}

#[test]
fn test_fragment_count_one_byte_over() {
    let size = DC_MAX_PAYLOAD_SIZE + 1;
    let count = size.div_ceil(DC_MAX_PAYLOAD_SIZE);
    assert_eq!(count, 2, "one byte over should require 2 fragments");
    assert_eq!(fragment_count(size), 2);
}

#[test]
fn test_fragment_count_200kb() {
    let size: usize = 200 * 1024;
    let count = size.div_ceil(DC_MAX_PAYLOAD_SIZE);
    assert_eq!(count, 4);
    assert_eq!(fragment_count(size), 4);
}

#[test]
fn an_empty_message_is_one_fragment() {
    assert_eq!(fragment_count(0), 1);
    let frames = fragment_message(6, &Bytes::new()).unwrap();
    assert_eq!(frames, vec![Bytes::from_static(&[0, 0, 0, 6, 0, 0, 0, 1])]);
}

#[test]
fn the_number_of_fragments_is_limited() {
    let size = DC_MAX_PAYLOAD_SIZE * MAX_FRAGMENTS;
    assert_eq!(fragment_count(size), MAX_FRAGMENTS);
    assert_eq!(fragment_count(size + 1), MAX_FRAGMENTS + 1);
}

// ── There and back ────────────────────────────────────────────────────────────

fn make_frame(msg_id: u32, frag_index: u16, total_frags: u16, payload: &[u8]) -> Bytes {
    let mut buf = Vec::with_capacity(FRAGMENT_HEADER_SIZE + payload.len());
    encode_fragment_header(&mut buf, msg_id, frag_index, total_frags);
    buf.extend_from_slice(payload);
    Bytes::from(buf)
}

fn recv_one(raw: Bytes, reassembly: &mut ReassemblyBuffer) -> Option<Bytes> {
    let (msg_id, frag_index, total_frags, payload) = decode_fragment_header(raw).unwrap();
    if total_frags == 1 {
        return Some(payload);
    }
    reassembly.insert(msg_id, frag_index, total_frags, payload)
}

#[test]
fn test_roundtrip_small_message() {
    let data = b"small message";
    let frame = make_frame(0, 0, 1, data);
    let mut buf = ReassemblyBuffer::new();
    let result = recv_one(frame, &mut buf).unwrap();
    assert_eq!(result.as_ref(), data);
}

#[test]
fn test_roundtrip_exactly_max_payload() {
    let data = vec![0xABu8; DC_MAX_PAYLOAD_SIZE];
    let frame = make_frame(1, 0, 1, &data);
    let mut buf = ReassemblyBuffer::new();
    let result = recv_one(frame, &mut buf).unwrap();
    assert_eq!(result.as_ref(), data.as_slice());
}

#[test]
fn test_roundtrip_one_byte_over_max_payload() {
    let data = vec![0xCDu8; DC_MAX_PAYLOAD_SIZE + 1];
    let (part0, part1) = data.split_at(DC_MAX_PAYLOAD_SIZE);

    let frame0 = make_frame(2, 0, 2, part0);
    let frame1 = make_frame(2, 1, 2, part1);

    let mut buf = ReassemblyBuffer::new();
    assert!(recv_one(frame0, &mut buf).is_none());
    let result = recv_one(frame1, &mut buf).unwrap();
    assert_eq!(result.as_ref(), data.as_slice());
}

#[test]
fn test_roundtrip_200kb_message() {
    let data: Vec<u8> = (0u8..=255).cycle().take(200 * 1024).collect();
    let total_frags = data.len().div_ceil(DC_MAX_PAYLOAD_SIZE) as u16;

    let mut buf = ReassemblyBuffer::new();
    let mut result = None;
    for (i, chunk) in data.chunks(DC_MAX_PAYLOAD_SIZE).enumerate() {
        let frame = make_frame(99, i as u16, total_frags, chunk);
        result = recv_one(frame, &mut buf);
    }
    let result = result.unwrap();
    assert_eq!(result.as_ref(), data.as_slice());
}

#[test]
fn fragments_of_a_message_carry_it() {
    let data: Vec<u8> = (0u8..=255).cycle().take(200 * 1024).collect();
    let frames = fragment_message(77, &Bytes::from(data.clone())).unwrap();
    assert_eq!(frames.len(), 4);
    let mut buf = ReassemblyBuffer::new();
    assert!(recv_one(frames[3].clone(), &mut buf).is_none());
    assert!(recv_one(frames[0].clone(), &mut buf).is_none());
    assert!(recv_one(frames[2].clone(), &mut buf).is_none());
    let result = recv_one(frames[1].clone(), &mut buf).unwrap();
    assert_eq!(result.as_ref(), data.as_slice());
}

// ── Lanes ─────────────────────────────────────────────────────────────────────

fn envelope(request_id: &str, payload: &'static [u8]) -> RpcEnvelope {
    RpcEnvelope {
        request_id: request_id.to_string(),
        route_key: "test.route".to_string(),
        payload: Some(Bytes::from_static(payload)),
        traceparent: None,
        tracestate: None,
        metadata: vec![],
        timeout_ms: 30000,
        error: None,
    }
}

#[test]
fn test_mpsc_lane() {
    let (tx, mut rx) = tokio::sync::mpsc::channel(10);
    let lane = DataLane::mpsc(PayloadType::RpcReliable);

    let delivered = tx.try_send(envelope("test-1", b"hello")).is_ok();
    lane.send_envelope(delivered).unwrap();

    let received = lane.recv_envelope(rx.try_recv().ok()).unwrap();
    assert_eq!(received.request_id, "test-1");
    assert_eq!(received.payload, Some(Bytes::from_static(b"hello")));
}

#[test]
fn test_mpsc_lane_clone() {
    let (tx, mut rx) = tokio::sync::mpsc::channel(10);
    let lane = DataLane::mpsc(PayloadType::RpcReliable);
    let lane2 = DataLane::mpsc(PayloadType::RpcReliable);

    let delivered = tx.try_send(envelope("test-2", b"test")).is_ok();
    lane.send_envelope(delivered).unwrap();

    let received = lane2.recv_envelope(rx.try_recv().ok()).unwrap();
    assert_eq!(received.request_id, "test-2");
    assert_eq!(received.payload, Some(Bytes::from_static(b"test")));
}

#[test]
fn test_mpsc_lane_with_shared_rx() {
    let (tx, rx) = tokio::sync::mpsc::channel(10);
    let rx_shared = std::sync::Arc::new(std::sync::Mutex::new(rx));
    let lane = DataLane::mpsc_shared(PayloadType::RpcReliable);

    let delivered = tx.try_send(envelope("test-3", b"shared")).is_ok();
    lane.send_envelope(delivered).unwrap();

    let received = lane.recv_envelope(rx_shared.lock().unwrap().try_recv().ok()).unwrap();
    assert_eq!(received.request_id, "test-3");
    assert_eq!(received.payload, Some(Bytes::from_static(b"shared")));
}

#[test]
fn test_lane_type_name() {
    let lane = DataLane::mpsc(PayloadType::RpcReliable);
    assert_eq!(lane.lane_type(), "Mpsc");
}

#[test]
fn every_lane_has_a_name() {
    assert_eq!(DataLane::webrtc_data_channel().lane_type(), "WebRtcDataChannel");
    assert_eq!(DataLane::websocket(PayloadType::RpcSignal).lane_type(), "WebSocket");
    assert_eq!(
        DataLane::mpsc(PayloadType::RpcReliable).describe(),
        "DataLane::Mpsc(..)"
    );
    assert_eq!(
        DataLane::websocket(PayloadType::StreamLatencyFirst).describe(),
        "DataLane::WebSocket(type=StreamLatencyFirst)"
    );
    assert_eq!(DataLane::webrtc_data_channel().describe(), "DataLane::WebRtcDataChannel(..)");
}

#[test]
fn envelopes_go_through_queues_only() {
    match DataLane::websocket(PayloadType::RpcReliable).send_envelope(true) {
        Err(NetworkError::InvalidOperation(m)) => {
            assert_eq!(m, "send_envelope() only supports Mpsc DataLane");
        }
        other => panic!("unexpected {other:?}"),
    }
    match DataLane::webrtc_data_channel().recv_envelope(None) {
        Err(NetworkError::InvalidOperation(m)) => {
            assert_eq!(m, "recv_envelope() only supports Mpsc DataLane");
        }
        other => panic!("unexpected {other:?}"),
    }
}

#[test]
fn a_closed_queue_is_named() {
    let lane = DataLane::mpsc(PayloadType::RpcReliable);
    match lane.send_envelope(false) {
        Err(NetworkError::ChannelClosed(m)) => assert_eq!(m, "Mpsc channel closed"),
        other => panic!("unexpected {other:?}"),
    }
    match lane.recv_envelope(None) {
        Err(NetworkError::ChannelClosed(m)) => assert_eq!(m, "Mpsc channel closed"),
        other => panic!("unexpected {other:?}"),
    }
}

#[test]
fn octets_do_not_go_through_queues() {
    let lane = DataLane::mpsc(PayloadType::RpcReliable);
    match lane.send(Bytes::from_static(b"x")) {
        (SendTask::Finished, SendAction::Finish { result: Err(e) }) => match e {
            NetworkError::InvalidOperation(m) => {
                assert_eq!(m, "Mpsc DataLane requires send_envelope(), not send(bytes)");
            }
            other => panic!("unexpected {other:?}"),
        },
        other => panic!("unexpected {other:?}"),
    }
}

#[test]
fn a_web_socket_frame_has_a_header() {
    let frame = websocket_frame(PayloadType::StreamReliable, &Bytes::from_static(b"abc"));
    assert_eq!(frame.as_ref(), &[2, 0, 0, 0, 3, b'a', b'b', b'c']);
    let lane = DataLane::websocket(PayloadType::StreamReliable);
    match lane.send(Bytes::from_static(b"abc")) {
        (SendTask::Writing { .. }, SendAction::Write { frame: sent }) => assert_eq!(sent, frame),
        other => panic!("unexpected {other:?}"),
    }
}

#[test]
fn a_web_socket_without_a_connection_is_an_error() {
    let mut lane = DataLane::websocket(PayloadType::RpcReliable);
    let (mut task, _) = lane.send(Bytes::from_static(b"abc"));
    match task.step(&mut lane, SendEvent::NotConnected) {
        SendAction::Finish { result: Err(NetworkError::ConnectionError(m)) } => {
            assert_eq!(m, "WebSocket not connected");
        }
        other => panic!("unexpected {other:?}"),
    }
}

#[test]
fn a_data_channel_is_waited_for() {
    let mut lane = DataLane::webrtc_data_channel();
    let (mut task, action) = lane.send(Bytes::from_static(b"hi"));
    assert!(matches!(action, SendAction::CheckState));
    let event = SendEvent::State { state: ChannelState::Connecting, elapsed_nanos: 7 };
    match task.step(&mut lane, event) {
        SendAction::Sleep { millis } => assert_eq!(millis, OPEN_POLL_MILLIS),
        other => panic!("unexpected {other:?}"),
    }
    assert!(matches!(task.step(&mut lane, SendEvent::Woke), SendAction::CheckState));
    let event = SendEvent::State { state: ChannelState::Open, elapsed_nanos: 8 };
    match task.step(&mut lane, event) {
        SendAction::Write { frame } => {
            assert_eq!(frame.as_ref(), &[0, 0, 0, 0, 0, 0, 0, 1, b'h', b'i']);
        }
        other => panic!("unexpected {other:?}"),
    }
    assert!(matches!(
        task.step(&mut lane, SendEvent::Written),
        SendAction::Finish { result: Ok(()) }
    ));
}

#[test]
fn a_data_channel_is_not_waited_for_forever() {
    let mut lane = DataLane::webrtc_data_channel();
    let (mut task, _) = lane.send(Bytes::from_static(b"hi"));
    let event = SendEvent::State {
        state: ChannelState::Connecting,
        elapsed_nanos: OPEN_TIMEOUT_NANOS,
    };
    assert!(matches!(task.step(&mut lane, event), SendAction::Sleep { .. }));
    assert!(matches!(task.step(&mut lane, SendEvent::Woke), SendAction::CheckState));
    let event = SendEvent::State {
        state: ChannelState::Connecting,
        elapsed_nanos: OPEN_TIMEOUT_NANOS + 1,
    };
    match task.step(&mut lane, event) {
        SendAction::Finish { result: Err(NetworkError::DataChannelError(m)) } => {
            assert_eq!(m, "DataChannel open timeout: Connecting");
        }
        other => panic!("unexpected {other:?}"),
    }
}

#[test]
fn a_closed_data_channel_is_not_written_to() {
    let mut lane = DataLane::webrtc_data_channel();
    let (mut task, _) = lane.send(Bytes::from_static(b"hi"));
    let event = SendEvent::State { state: ChannelState::Closing, elapsed_nanos: 0 };
    match task.step(&mut lane, event) {
        SendAction::Finish { result: Err(NetworkError::DataChannelError(m)) } => {
            assert_eq!(m, "DataChannel closed: Closing");
        }
        other => panic!("unexpected {other:?}"),
    }
}

#[test]
fn a_failed_write_is_named_with_its_fragment() {
    let mut lane = DataLane::webrtc_data_channel();
    let open = || SendEvent::State { state: ChannelState::Open, elapsed_nanos: 0 };
    let failed = || SendEvent::WriteFailed { reason: "gone".to_string() };

    let (mut task, _) = lane.send(Bytes::from_static(b"hi"));
    task.step(&mut lane, open());
    match task.step(&mut lane, failed()) {
        SendAction::Finish { result: Err(NetworkError::DataChannelError(m)) } => {
            assert_eq!(m, "Send failed: gone");
        }
        other => panic!("unexpected {other:?}"),
    }

    let (mut task, _) = lane.send(Bytes::from(vec![0u8; DC_MAX_PAYLOAD_SIZE + 1]));
    task.step(&mut lane, open());
    assert!(matches!(task.step(&mut lane, SendEvent::Written), SendAction::Write { .. }));
    match task.step(&mut lane, failed()) {
        SendAction::Finish { result: Err(NetworkError::DataChannelError(m)) } => {
            assert_eq!(m, "Send fragment 1 failed: gone");
        }
        other => panic!("unexpected {other:?}"),
    }

    let mut socket = DataLane::websocket(PayloadType::RpcReliable);
    let (mut task, _) = socket.send(Bytes::from_static(b"hi"));
    match task.step(&mut socket, failed()) {
        SendAction::Finish { result: Err(NetworkError::SendError(m)) } => {
            assert_eq!(m, "WebSocket send failed: gone");
        }
        other => panic!("unexpected {other:?}"),
    }
}

#[test]
fn each_message_has_its_own_number() {
    let mut lane = DataLane::webrtc_data_channel();
    for expected in 0u8..3 {
        let (mut task, _) = lane.send(Bytes::from_static(b""));
        let event = SendEvent::State { state: ChannelState::Open, elapsed_nanos: 0 };
        match task.step(&mut lane, event) {
            SendAction::Write { frame } => assert_eq!(frame[3], expected),
            other => panic!("unexpected {other:?}"),
        }
    }
}

#[test]
fn a_data_channel_gives_whole_messages() {
    let mut lane = DataLane::webrtc_data_channel();
    let first = make_frame(4, 0, 2, b"ab");
    let second = make_frame(4, 1, 2, b"cd");
    assert!(lane.has_room(&first));
    assert!(matches!(lane.recv(Some(first)), Ok(Received::ReadOn)));
    match lane.recv(Some(second)) {
        Ok(Received::Return(Some(data))) => assert_eq!(data, Bytes::from_static(b"abcd")),
        other => panic!("unexpected {other:?}"),
    }
    match lane.recv(Some(make_frame(5, 0, 1, b"whole"))) {
        Ok(Received::Return(Some(data))) => assert_eq!(data, Bytes::from_static(b"whole")),
        other => panic!("unexpected {other:?}"),
    }
}

#[test]
fn a_closed_lane_is_named() {
    let mut channel = DataLane::webrtc_data_channel();
    match channel.recv(None) {
        Err(NetworkError::ChannelClosed(m)) => assert_eq!(m, "DataLane receiver closed"),
        other => panic!("unexpected {other:?}"),
    }
    let mut socket = DataLane::websocket(PayloadType::RpcReliable);
    match socket.recv(None) {
        Err(NetworkError::ChannelClosed(m)) => assert_eq!(m, "DataLane receiver closed"),
        other => panic!("unexpected {other:?}"),
    }
}

#[test]
fn polling_an_empty_lane_gives_nothing() {
    let mut socket = DataLane::websocket(PayloadType::RpcReliable);
    assert!(matches!(socket.try_recv(Polled::Empty), Ok(Received::Return(None))));
    match socket.try_recv(Polled::Data(Bytes::from_static(b"x"))) {
        Ok(Received::Return(Some(data))) => assert_eq!(data, Bytes::from_static(b"x")),
        other => panic!("unexpected {other:?}"),
    }
    match socket.try_recv(Polled::Disconnected) {
        Err(NetworkError::ChannelClosed(m)) => assert_eq!(m, "Lane receiver closed"),
        other => panic!("unexpected {other:?}"),
    }
    match DataLane::mpsc(PayloadType::RpcReliable).try_recv(Polled::Empty) {
        Err(NetworkError::InvalidOperation(m)) => {
            assert_eq!(m, "Mpsc Lane requires try_recv_envelope(), not try_recv()");
        }
        other => panic!("unexpected {other:?}"),
    }
}

#[test]
fn a_sent_message_arrives_whole() {
    let message: Vec<u8> = (0..200_000u32).map(|i| (i % 251) as u8).collect();
    let mut sender = DataLane::webrtc_data_channel();
    let mut receiver = DataLane::webrtc_data_channel();
    let (mut task, mut action) = sender.send(Bytes::from(message.clone()));
    let mut arrived: Vec<Bytes> = Vec::new();
    let mut frames = 0;
    loop {
        let event = match action {
            SendAction::CheckState => {
                SendEvent::State { state: ChannelState::Open, elapsed_nanos: 0 }
            }
            SendAction::Write { frame } => {
                frames += 1;
                assert!(receiver.has_room(&frame));
                match receiver.recv(Some(frame)).unwrap() {
                    Received::Return(Some(whole)) => arrived.push(whole),
                    Received::ReadOn => assert!(arrived.is_empty()),
                    other => panic!("{other:?}"),
                }
                SendEvent::Written
            }
            SendAction::Finish { result } => {
                assert!(result.is_ok());
                break;
            }
            other => panic!("{other:?}"),
        };
        action = task.step(&mut sender, event);
    }
    assert_eq!(frames, 4);
    assert_eq!(arrived, vec![Bytes::from(message)]);
    assert!(matches!(task, SendTask::Finished));
}

#[test]
fn payloads_of_any_size_are_joined_by_index() {
    let mut buffer = ReassemblyBuffer::new();
    let mut insert = |id: u32, index: u16, total: u16, payload: &'static [u8]| {
        let payload = Bytes::from_static(payload);
        assert!(buffer.has_room(id, index, total, &payload));
        buffer.insert(id, index, total, payload)
    };
    assert_eq!(insert(1, 3, 4, b"d"), None);
    assert_eq!(insert(2, 1, 2, b"y"), None);
    assert_eq!(insert(1, 0, 4, b"aaa"), None);
    assert_eq!(insert(1, 2, 4, b""), None);
    assert_eq!(insert(1, 1, 4, b"bb"), Some(Bytes::from_static(b"aaabbd")));
    assert_eq!(insert(2, 0, 2, b"x"), Some(Bytes::from_static(b"xy")));
    assert_eq!(insert(1, 0, 1, b"one"), Some(Bytes::from_static(b"one")));
}

#[test]
fn a_repeated_fragment_takes_the_place_of_the_first() {
    let mut buffer = ReassemblyBuffer::new();
    assert_eq!(buffer.insert(1, 0, 2, Bytes::from_static(b"first")), None);
    assert_eq!(buffer.insert(1, 0, 2, Bytes::from_static(b"a")), None);
    assert!(buffer.has_room(1, 1, 2, &Bytes::from_static(b"b")));
    assert_eq!(buffer.insert(1, 1, 2, Bytes::from_static(b"b")), Some(Bytes::from_static(b"ab")));
}

#[test]
fn short_items_are_refused_and_nothing_is_lost() {
    let frames = fragment_message(7, &Bytes::from(vec![1u8; 70_000])).unwrap();
    let mut lane = DataLane::webrtc_data_channel();
    assert!(matches!(lane.recv(Some(frames[0].clone())), Ok(Received::ReadOn)));
    let short = lane.recv(Some(Bytes::from_static(b"1234567")));
    assert!(matches!(short, Err(NetworkError::DataChannelError(_))));
    match lane.recv(Some(frames[1].clone())) {
        Ok(Received::Return(Some(whole))) => assert_eq!(whole.len(), 70_000),
        other => panic!("unexpected {other:?}"),
    }
    assert!(matches!(lane.recv(None), Err(NetworkError::ChannelClosed(_))));
}

#[test]
fn frames_in_any_order_are_received_as_the_message() {
    let message: Vec<u8> = (0..150_000u32).map(|i| (i % 253) as u8).collect();
    let frames = fragment_message(7, &Bytes::from(message.clone())).unwrap();
    assert_eq!(frames.len(), 3);
    for order in [[0, 1, 2], [2, 1, 0], [1, 2, 0]] {
        let mut lane = DataLane::webrtc_data_channel();
        for at in &order[..2] {
            assert!(matches!(lane.recv(Some(frames[*at].clone())), Ok(Received::ReadOn)));
        }
        match lane.recv(Some(frames[order[2]].clone())) {
            Ok(Received::Return(Some(whole))) => assert_eq!(whole, Bytes::from(message.clone())),
            other => panic!("unexpected {other:?}"),
        }
    }
}
