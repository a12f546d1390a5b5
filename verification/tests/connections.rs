use actr::error::NetworkError;
use actr::protocol::{ActrId, ActrType, PayloadType, Realm};
use actr::transport::lane::ChannelState;
use actr::wire::webrtc::connection::{
    plan_track, pump_step, CloseStep, ConnectionEvent, ConnectionState, DrainAction, DrainEvent,
    HookPlan, LanePlan, PeerState, PumpAction, PumpEvent, TrackPlan, WebRtcConnection,
    CHANNEL_SLOTS,
};
use actr::wire::webrtc::signaling::HookEvent;
use bytes::Bytes;

fn create_test_connection() -> WebRtcConnection {
    let peer_id = ActrId {
        realm: Realm { realm_id: 1 },
        serial_number: 42,
        actr_type: ActrType {
            manufacturer: "test".to_string(),
            name: "node".to_string(),
            version: "v1".to_string(),
        },
    };
    WebRtcConnection::new(peer_id, 7)
}

#[test]
fn a_new_connection_is_bare() {
    let conn = create_test_connection();
    assert_eq!(conn.peer_id().serial_number, 42);
    assert_eq!(conn.session_id(), 7);
    assert!(conn.is_connected());
    assert_eq!(conn.data_channels(), &vec![None; CHANNEL_SLOTS]);
    assert!(!conn.has_open_data_channel(&vec![ChannelState::Open; CHANNEL_SLOTS]));
}

#[test]
fn only_the_first_close_does_anything() {
    let mut conn = create_test_connection();
    conn.connect();
    assert!(matches!(conn.close(), CloseStep::DrainAndClosePeer));
    for _ in 0..50 {
        assert!(matches!(conn.close(), CloseStep::AlreadyClosed));
    }
    assert!(!conn.is_connected());
    assert!(!conn.connected);
}

#[test]
fn a_state_change_after_closing_is_ignored() {
    let mut conn = create_test_connection();
    conn.connect();
    conn.close();
    assert!(conn.handle_state_change(PeerState::Closed).is_none());
    assert!(conn.handle_state_change(PeerState::Connected).is_none());
    assert!(!conn.connected);
    assert!(matches!(conn.close(), CloseStep::AlreadyClosed));
}

#[test]
fn closing_and_dropping_a_lane_go_together() {
    let mut conn = create_test_connection();
    let payload_type = PayloadType::RpcReliable;
    conn.get_lane(payload_type, ChannelState::Unspecified).unwrap();
    conn.lane_created(payload_type, 3);
    conn.close();
    conn.invalidate_lane(payload_type);
    match conn.peer_closed() {
        ConnectionEvent::ConnectionClosed { peer_id, session_id } => {
            assert_eq!(peer_id.serial_number, 42);
            assert_eq!(session_id, 7);
        }
        other => panic!("unexpected {other:?}"),
    }
    assert_eq!(conn.data_channels(), &vec![None; CHANNEL_SLOTS]);
}

#[test]
fn a_closed_peer_closes_the_connection() {
    let mut conn = create_test_connection();
    conn.handle_state_change(PeerState::Connected);
    let change = conn.handle_state_change(PeerState::Closed).unwrap();
    assert!(change.close);
    match change.event {
        ConnectionEvent::StateChanged { state, .. } => assert_eq!(state, ConnectionState::Closed),
        other => panic!("unexpected {other:?}"),
    }
    assert!(matches!(change.hook, HookPlan::Call(HookEvent::WebRtcDisconnected { .. })));
    let again = conn.handle_state_change(PeerState::Closed).unwrap();
    assert!(!again.close);
}

#[test]
fn a_failed_peer_keeps_the_connection() {
    let mut conn = create_test_connection();
    conn.handle_state_change(PeerState::Connected);
    let change = conn.handle_state_change(PeerState::Disconnected).unwrap();
    assert!(!change.close);
    assert!(!conn.connected);
    let change = conn.handle_state_change(PeerState::Failed).unwrap();
    assert!(!change.close);
    assert!(conn.is_connected());
}

#[test]
fn hooks_are_told_of_the_peer() {
    let mut conn = create_test_connection();
    assert!(matches!(
        conn.handle_state_change(PeerState::New).unwrap().hook,
        HookPlan::Skip
    ));
    assert!(matches!(
        conn.handle_state_change(PeerState::Connecting).unwrap().hook,
        HookPlan::Call(HookEvent::WebRtcConnectStart { .. })
    ));
    assert!(matches!(
        conn.handle_state_change(PeerState::Connected).unwrap().hook,
        HookPlan::LookUpPair
    ));
    match conn.connected_hook(Some("udp relay 1.2.3.4".to_string())) {
        HookEvent::WebRtcConnected { relayed, .. } => assert!(relayed),
        other => panic!("unexpected {other:?}"),
    }
    match conn.connected_hook(Some("udp host 1.2.3.4".to_string())) {
        HookEvent::WebRtcConnected { relayed, .. } => assert!(!relayed),
        other => panic!("unexpected {other:?}"),
    }
    match conn.connected_hook(None) {
        HookEvent::WebRtcConnected { relayed, .. } => assert!(!relayed),
        other => panic!("unexpected {other:?}"),
    }
}

// ── Lanes ─────────────────────────────────────────────────────────────────────

#[test]
fn a_lane_is_created_once_and_used_again() {
    let mut conn = create_test_connection();
    let pt = PayloadType::StreamLatencyFirst;
    match conn.get_lane(pt, ChannelState::Unspecified).unwrap() {
        LanePlan::Create { config } => {
            assert!(!config.ordered);
            assert_eq!(config.max_retransmits, Some(3));
        }
        other => panic!("unexpected {other:?}"),
    }
    conn.lane_created(pt, 11);
    assert_eq!(conn.cached_lane(pt), Some(11));
    assert!(matches!(
        conn.get_lane(pt, ChannelState::Open),
        Ok(LanePlan::Reuse { channel: 11 })
    ));
    assert!(matches!(
        conn.get_lane(pt, ChannelState::Connecting),
        Ok(LanePlan::Reuse { channel: 11 })
    ));
    assert!(matches!(conn.get_lane(pt, ChannelState::Closing), Ok(LanePlan::Create { .. })));
    assert_eq!(conn.cached_lane(pt), None);
}

#[test]
fn a_lane_has_two_names() {
    let mut conn = create_test_connection();
    let pt = PayloadType::RpcSignal;
    match conn.create_lane(pt, ChannelState::Unspecified).unwrap() {
        LanePlan::Create { config } => assert!(config.ordered),
        other => panic!("{other:?}"),
    }
    conn.lane_created(pt, 9);
    assert!(matches!(conn.create_lane(pt, ChannelState::Open), Ok(LanePlan::Reuse { channel: 9 })));
    assert!(matches!(conn.get_lane(pt, ChannelState::Open), Ok(LanePlan::Reuse { channel: 9 })));
    assert!(matches!(conn.create_lane(pt, ChannelState::Closed), Ok(LanePlan::Create { .. })));
    assert_eq!(conn.cached_lane(pt), None);
}

#[test]
fn lanes_do_not_touch_each_other() {
    let mut conn = create_test_connection();
    conn.lane_created(PayloadType::RpcReliable, 1);
    conn.lane_created(PayloadType::RpcSignal, 2);
    conn.invalidate_lane(PayloadType::RpcReliable);
    assert_eq!(conn.cached_lane(PayloadType::RpcSignal), Some(2));
    assert_eq!(conn.data_channels()[1], Some(2));
    let config = WebRtcConnection::get_data_channel_config(PayloadType::RpcSignal);
    assert!(config.ordered);
    assert_eq!(config.max_retransmits, None);
}

#[test]
fn media_has_no_lane() {
    let mut conn = create_test_connection();
    match conn.get_lane(PayloadType::MediaRtp, ChannelState::Unspecified) {
        Err(NetworkError::NotImplemented(m)) => {
            assert_eq!(m, "MediaTrack Lane requires stream_id, use get_media_lane() instead");
        }
        other => panic!("unexpected {other:?}"),
    }
    match conn.register_received_data_channel(4, PayloadType::MediaRtp) {
        Err(NetworkError::NotImplemented(m)) => {
            assert_eq!(m, "MediaTrack Lane not supported in this method");
        }
        other => panic!("unexpected {other:?}"),
    }
}

#[test]
fn a_channel_of_the_peer_is_forwarded() {
    let mut conn = create_test_connection();
    let pt = PayloadType::StreamReliable;
    assert!(matches!(conn.register_received_data_channel(5, pt), Ok(PumpAction::Receive)));
    assert_eq!(conn.cached_lane(pt), Some(5));
    match pump_step(pt, PumpEvent::Received(Ok(Bytes::from_static(b"x")))) {
        PumpAction::Forward { data, payload_type } => {
            assert_eq!(data, Bytes::from_static(b"x"));
            assert_eq!(payload_type, pt);
        }
        other => panic!("unexpected {other:?}"),
    }
    assert!(matches!(
        pump_step(pt, PumpEvent::Forwarded { taken: true }),
        PumpAction::Receive
    ));
    assert!(matches!(pump_step(pt, PumpEvent::Forwarded { taken: false }), PumpAction::Stop));
    let closed = Err(NetworkError::ChannelClosed("closed".to_string()));
    assert!(matches!(pump_step(pt, PumpEvent::Received(closed)), PumpAction::Stop));
    assert!(matches!(
        conn.received_channel_closed(pt),
        ConnectionEvent::DataChannelClosed { payload_type: PayloadType::StreamReliable, .. }
    ));
    assert_eq!(conn.cached_lane(pt), None);
}

#[test]
fn a_closed_channel_is_told_unless_the_session_is_over() {
    let mut conn = create_test_connection();
    conn.lane_created(PayloadType::RpcReliable, 1);
    assert!(matches!(
        conn.data_channel_opened(PayloadType::RpcReliable),
        ConnectionEvent::DataChannelOpened { session_id: 7, .. }
    ));
    assert!(conn.created_channel_closed(PayloadType::RpcReliable).is_some());
    conn.lane_created(PayloadType::RpcReliable, 2);
    conn.close();
    assert!(conn.created_channel_closed(PayloadType::RpcReliable).is_none());
    assert_eq!(conn.cached_lane(PayloadType::RpcReliable), Some(2));
}

// ── Draining ──────────────────────────────────────────────────────────────────

#[test]
fn open_channels_are_drained() {
    let mut conn = create_test_connection();
    conn.lane_created(PayloadType::RpcReliable, 1);
    conn.lane_created(PayloadType::RpcSignal, 2);
    let states = vec![
        ChannelState::Open,
        ChannelState::Closed,
        ChannelState::Unspecified,
        ChannelState::Unspecified,
    ];
    assert!(conn.has_open_data_channel(&states));
    let mut task = conn.drain_data_channels(&states);
    assert!(matches!(task.action(), DrainAction::Query { channel: 1 }));
    assert!(matches!(
        task.step(DrainEvent::Buffered { amount: 10 }),
        DrainAction::Sleep { millis: 100 }
    ));
    assert!(matches!(task.step(DrainEvent::Woke), DrainAction::Query { channel: 1 }));
    assert!(matches!(task.step(DrainEvent::Buffered { amount: 0 }), DrainAction::Done));
}

#[test]
fn draining_gives_up_after_some_time() {
    let mut conn = create_test_connection();
    conn.lane_created(PayloadType::RpcReliable, 1);
    let mut task = conn.drain_data_channels(&vec![ChannelState::Open; CHANNEL_SLOTS]);
    let mut queries = 0;
    let mut action = task.action();
    loop {
        action = match action {
            DrainAction::Query { .. } => {
                queries += 1;
                task.step(DrainEvent::Buffered { amount: 1 })
            }
            DrainAction::Sleep { .. } => task.step(DrainEvent::Woke),
            DrainAction::Done => break,
        };
    }
    assert_eq!(queries, 50);
}

// ── Media ─────────────────────────────────────────────────────────────────────

#[test]
fn known_codecs_make_tracks() {
    let conn = create_test_connection();
    let cases = [
        ("h264", "video", webrtc::api::media_engine::MIME_TYPE_H264, "actr-video"),
        ("Vp8", "video", webrtc::api::media_engine::MIME_TYPE_VP8, "actr-video"),
        ("opus", "audio", webrtc::api::media_engine::MIME_TYPE_OPUS, "actr-audio"),
    ];
    for (codec, media_type, expected, stream) in cases {
        match conn.add_media_track("t", codec, media_type).unwrap() {
            TrackPlan::Create { mime_type, stream_id } => {
                assert_eq!(mime_type, expected);
                assert_eq!(stream_id, stream);
            }
            other => panic!("unexpected {other:?}"),
        }
    }
    match conn.add_media_track("t", "opus", "video") {
        Err(NetworkError::WebRtcError(m)) => {
            assert_eq!(m, "Unsupported codec: opus for video");
        }
        other => panic!("unexpected {other:?}"),
    }
    assert!(plan_track("x", "audio", "OPUS").is_ok());
    assert!(plan_track("x", "audio", "opus").is_err());
}

#[test]
fn a_track_counts_its_packets() {
    let mut conn = create_test_connection();
    let ssrc = conn.media_track_added("cam", 1, 2);
    assert_eq!(conn.get_ssrc("cam"), Some(ssrc));
    assert_eq!(conn.next_sequence_number("cam"), Some(0));
    assert_eq!(conn.next_sequence_number("cam"), Some(1));
    assert_eq!(conn.next_sequence_number("mic"), None);
    assert!(matches!(
        conn.add_media_track("cam", "none", "none"),
        Ok(TrackPlan::Reuse { track: 1 })
    ));
    assert_eq!(conn.get_media_track("cam"), Some(1));
    assert_eq!(conn.remove_media_track("cam"), Some(2));
    conn.media_track_removed("cam");
    assert_eq!(conn.get_media_track("cam"), None);
    assert_eq!(conn.get_ssrc("cam"), None);
    assert_eq!(conn.remove_media_track("cam"), None);
}

#[test]
fn sequence_numbers_begin_again() {
    let mut conn = create_test_connection();
    conn.keep_media_track("cam", 1, 2, 99);
    for expected in 0..=u16::MAX {
        assert_eq!(conn.next_sequence_number("cam"), Some(expected));
    }
    assert_eq!(conn.next_sequence_number("cam"), Some(0));
    assert_eq!(conn.get_ssrc("cam"), Some(99));
}
