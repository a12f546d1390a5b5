use actr::clock::secs_or_epoch;
use actr::error::{NetworkError, NetworkResult};
use actr::protocol::{AIdCredential, ActrId, ActrType, ErrorResponse, Realm};
use actr::wire::webrtc::envelope::{
    read_credential_update_reply, read_heartbeat_reply, read_register_reply,
    read_route_candidates_reply, read_signing_key_reply, ActrRequest, Flow, Ping, Pong,
    RegisterResponse, RouteCandidatesResponse, ServerReply, SignalingEnvelope, SigningKeyResponse,
    UnregisterResponse,
};
use actr::wire::webrtc::reconnect::{
    AttemptAction, AttemptEvent, CycleAction, CycleEvent, ReconnectCycle, RetryTask,
};
use actr::wire::webrtc::signaling::{
    AttemptOutcome, ConnectEnd, ConnectPlan, ConnectionState, DisconnectReason, HookEvent, InboundFrame,
    PingAction, PingEvent, ReceiveAction, ReconnectConfig, ReplyOutcome, SignalingConfig,
    SignalingEvent, WaitEvent, WebSocketSignalingClient,
};

fn make_config() -> SignalingConfig {
    SignalingConfig {
        server_url: "ws://127.0.0.1:1/signaling/ws".to_string(),
        connection_timeout: 2,
        heartbeat_interval: 30,
        reconnect_config: ReconnectConfig::default(),
        auth_config: None,
        webrtc_role: None,
    }
}

fn make_config_no_reconnect() -> SignalingConfig {
    let mut config = make_config();
    config.reconnect_config = ReconnectConfig {
        enabled: false,
        max_attempts: 5,
        initial_delay: 1,
        max_delay: 4,
        backoff_multiplier_percent: 200,
    };
    config
}

/// Pauses that grow up to a limit and end after so many.
struct Backoff {
    next_millis: u64,
    max_millis: u64,
    left: u32,
}

impl Backoff {
    fn new(config: &ReconnectConfig) -> Self {
        let settings = config.backoff();
        Backoff {
            next_millis: settings.initial_delay * 1000,
            max_millis: settings.max_delay * 1000,
            left: settings.max_retries,
        }
    }

    fn next(&mut self) -> Option<u64> {
        if self.left == 0 {
            return None;
        }
        self.left -= 1;
        let delay = self.next_millis;
        self.next_millis = (delay * 2).min(self.max_millis);
        Some(delay)
    }
}

fn in_nanos(millis: u64) -> u128 {
    u128::from(millis) * 1_000_000
}

/// A client together with a server that can be up or down.
struct World {
    client: WebSocketSignalingClient,
    server_up: bool,
    server_connections: u32,
    now: u64,
    slept_millis: u64,
    events: Vec<SignalingEvent>,
    hooks: Vec<HookEvent>,
    reconnect_wanted: u32,
}

impl World {
    fn new(config: SignalingConfig, server_up: bool) -> Self {
        World {
            client: WebSocketSignalingClient::new(config),
            server_up,
            server_connections: 0,
            now: 1000,
            slept_millis: 0,
            events: vec![],
            hooks: vec![],
            reconnect_wanted: 0,
        }
    }

    fn attempt(&mut self) -> NetworkResult<()> {
        let outcome = if self.server_up {
            self.server_connections += 1;
            AttemptOutcome::Opened
        } else {
            AttemptOutcome::Failed(NetworkError::ConnectionError("refused".to_string()))
        };
        let result = self.client.attempt_finished(outcome, self.now);
        let announcement = result?;
        self.hooks.push(announcement.hook);
        self.events.push(announcement.event);
        self.client.connection_told();
        Ok(())
    }

    fn sleep(&mut self, millis: u64) {
        self.slept_millis += millis;
        self.now += millis / 1000;
    }

    fn connect(&mut self) -> NetworkResult<()> {
        match self.client.connect() {
            ConnectPlan::AlreadyConnected => Ok(()),
            ConnectPlan::WaitForOther => panic!("nobody else connects"),
            ConnectPlan::Establish => self.establish(),
        }
    }

    fn establish(&mut self) -> NetworkResult<()> {
        let mut backoff = Backoff::new(&self.client.config.reconnect_config);
        let (mut task, mut action) =
            RetryTask::connect_with_retries(&self.client.config.reconnect_config);
        let result = loop {
            let event = match action {
                AttemptAction::Hook(hook) => {
                    self.hooks.push(hook);
                    AttemptEvent::HookDone
                }
                AttemptAction::Attempt => AttemptEvent::Attempted(self.attempt()),
                AttemptAction::Sleep { nanos } => {
                    self.sleep((nanos / 1_000_000) as u64);
                    AttemptEvent::Woke
                }
                AttemptAction::NextDelay => AttemptEvent::Delay(backoff.next().map(in_nanos)),
                AttemptAction::Finish(result) => break result,
            };
            action = task.step(event);
        };
        let failure = result.as_ref().err().map(|e| format!("{e:?}"));
        match self.client.connect_finished(failure) {
            ConnectEnd::StartTasks => {
                self.client.start_receiver();
                self.client.start_ping_task(true);
            }
            ConnectEnd::Tell(event) => self.events.push(event),
        }
        result
    }

    fn disconnect(&mut self) {
        let plan = self.client.disconnect().unwrap();
        self.hooks.push(plan.announcement.hook);
        self.events.push(plan.announcement.event);
    }

    fn shut_server_down(&mut self) {
        self.server_up = false;
        if self.client.is_connected() {
            let loss = self.client.stream_terminated();
            self.events.push(loss.event);
            if loss.wake_reconnect {
                self.reconnect_wanted += 1;
            }
        }
    }

    /// Runs one reconnect cycle; the server comes up again before attempt `up_at`.
    fn reconnect(&mut self, up_at: Option<u32>) {
        let mut backoff = Backoff::new(&self.client.config.reconnect_config);
        let (mut cycle, mut action) = ReconnectCycle::run_reconnect_cycle();
        loop {
            let event = match action {
                CycleAction::Disconnect => {
                    self.disconnect();
                    CycleEvent::CleanedUp
                }
                CycleAction::NextDelay => CycleEvent::Delay(backoff.next().map(in_nanos)),
                CycleAction::AnnounceAndAttempt(event) => {
                    if let SignalingEvent::ConnectStart { attempt } = &event {
                        if up_at == Some(*attempt) {
                            self.server_up = true;
                        }
                    }
                    self.events.push(event);
                    CycleEvent::Attempted { connected: self.attempt().is_ok() }
                }
                CycleAction::Sleep { nanos } => {
                    self.sleep((nanos / 1_000_000) as u64);
                    CycleEvent::Woke
                }
                CycleAction::CoolDown { secs } => {
                    self.sleep(secs * 1000);
                    CycleEvent::Woke
                }
                CycleAction::StartTasks => {
                    self.client.start_receiver();
                    self.client.start_ping_task(true);
                    return;
                }
                CycleAction::Stop => return,
            };
            action = cycle.step(&self.client, event);
        }
    }
}

// ── The client by itself ──────────────────────────────────────────────────────

#[test]
fn test_reconnect_config_defaults() {
    let cfg = ReconnectConfig::default();
    assert!(cfg.enabled);
    assert_eq!(cfg.max_attempts, 10);
    assert_eq!(cfg.initial_delay, 1);
    assert_eq!(cfg.max_delay, 60);
    assert!((cfg.backoff_multiplier_percent as f64 / 100.0 - 2.0).abs() < f64::EPSILON);
}

#[test]
fn test_websocket_signaling_client_initial_state_disconnected() {
    let client = WebSocketSignalingClient::new(make_config());
    assert!(!client.is_connected());
    assert!(!client.connecting);
    assert!(!client.reconnector_started);
    assert!(matches!(client.connection_state(), ConnectionState::Disconnected));
}

#[test]
fn test_initial_stats_are_zero() {
    let client = WebSocketSignalingClient::new(make_config());
    let stats = client.get_stats();
    assert_eq!(stats.connections, 0);
    assert_eq!(stats.disconnections, 0);
    assert_eq!(stats.messages_sent, 0);
    assert_eq!(stats.messages_received, 0);
    assert_eq!(stats.errors, 0);
}

#[test]
fn test_reconnect_manager_idempotent() {
    let mut client = WebSocketSignalingClient::new(make_config());
    assert!(client.start_reconnect_manager());
    assert!(client.reconnector_started);
    assert!(!client.start_reconnect_manager());
    assert!(client.reconnector_started);
}

#[test]
fn test_reconnect_manager_disabled_when_config_disabled() {
    let mut config = make_config();
    config.reconnect_config.enabled = false;
    let mut client = WebSocketSignalingClient::new(config);
    assert!(!client.start_reconnect_manager());
    assert!(!client.reconnector_started);
}

#[test]
fn test_connect_fast_path_when_already_connected() {
    let mut client = WebSocketSignalingClient::new(make_config());
    client.connected = true;
    assert!(matches!(client.connect(), ConnectPlan::AlreadyConnected));
    assert!(!client.connecting);
}

#[test]
fn test_connect_sets_connecting_flag() {
    let mut config = make_config();
    config.reconnect_config.enabled = false;
    config.connection_timeout = 1;
    let mut client = WebSocketSignalingClient::new(config);

    assert!(matches!(client.connect(), ConnectPlan::Establish));
    assert!(client.connecting);
    assert!(matches!(client.connect(), ConnectPlan::WaitForOther));
    let result = client.attempt_finished(AttemptOutcome::TimedOut, 0);
    match &result {
        Err(NetworkError::ConnectionError(m)) => {
            assert_eq!(m, "Signaling connect timeout after 1s");
        }
        other => panic!("unexpected {other:?}"),
    }
    client.connect_finished(Some("timeout".to_string()));
    assert!(!client.connecting);
}

#[test]
fn test_disconnect_event_on_connect_failure() {
    let mut config = make_config();
    config.reconnect_config.enabled = false;
    let mut world = World::new(config, false);
    assert!(world.connect().is_err());
    assert!(matches!(
        world.events[..],
        [SignalingEvent::Disconnected { reason: DisconnectReason::ConnectionFailed(_) }]
    ));
}

#[test]
fn test_disconnect_clears_connected_flag() {
    let mut client = WebSocketSignalingClient::new(make_config());
    client.connected = true;
    assert!(client.is_connected());
    assert!(client.disconnect().is_ok());
    assert!(!client.is_connected());
}

#[test]
fn test_disconnect_increments_disconnection_stat() {
    let mut client = WebSocketSignalingClient::new(make_config());
    client.connected = true;
    let stats_before = client.get_stats().disconnections;
    assert!(client.disconnect().is_ok());
    let stats_after = client.get_stats().disconnections;
    assert_eq!(stats_after, stats_before + 1);
}

#[test]
fn test_disconnect_idempotent() {
    let mut client = WebSocketSignalingClient::new(make_config());
    assert!(client.disconnect().is_ok());
    assert!(client.disconnect().is_ok());
    assert!(!client.is_connected());
}

#[test]
fn disconnecting_stops_what_runs() {
    let mut world = World::new(make_config(), true);
    world.connect().unwrap();
    let plan = world.client.disconnect().unwrap();
    assert!(plan.close_sink && plan.abort_receiver && plan.abort_ping);
    let plan = world.client.disconnect().unwrap();
    assert!(!plan.close_sink && !plan.abort_receiver && !plan.abort_ping);
}

#[test]
fn disconnecting_is_told_and_drops_what_was_not_read() {
    let mut client = WebSocketSignalingClient::new(make_config());
    for _ in 0..2 {
        let plan = client.disconnect().unwrap();
        assert!(plan.reset_inbound);
        assert!(matches!(plan.announcement.hook, HookEvent::SignalingDisconnected));
        assert!(matches!(
            plan.announcement.event,
            SignalingEvent::Disconnected { reason: DisconnectReason::Manual }
        ));
    }
    assert_eq!(client.get_stats().disconnections, 2);
    assert_eq!(client.get_stats().connections, 0);
}

#[test]
fn an_open_socket_is_told() {
    let mut client = WebSocketSignalingClient::new(make_config());
    let told = client.attempt_finished(AttemptOutcome::Opened, 5).unwrap();
    assert!(matches!(told.hook, HookEvent::SignalingConnected));
    assert!(matches!(told.event, SignalingEvent::Connected));
    assert!(client.is_connected());
    assert_eq!(client.get_stats().connections, 0);
    client.connection_told();
    assert_eq!(client.get_stats().connections, 1);
    assert!(client.attempt_finished(AttemptOutcome::TimedOut, 5).is_err());
    assert_eq!(client.get_stats().connections, 1);
}

// ── The URL ───────────────────────────────────────────────────────────────────

#[test]
fn test_build_url_without_identity() {
    let config = make_config();
    let expected_base = config.server_url.clone();
    let client = WebSocketSignalingClient::new(config);
    assert_eq!(client.build_url_with_identity().unwrap().unwrap(), expected_base);
}

#[test]
fn test_build_url_with_webrtc_role() {
    let mut config = make_config();
    config.webrtc_role = Some("answer".to_string());
    let client = WebSocketSignalingClient::new(config);
    let url = client.build_url_with_identity().unwrap().unwrap();
    assert!(url.contains("webrtc_role=answer"), "{url}");
}

#[test]
fn the_url_names_identity_and_credential() {
    let mut client = WebSocketSignalingClient::new(make_config());
    client.set_actor_id("a b&c".to_string());
    client.set_credential_state(AIdCredential {
        key_id: 7,
        claims: vec![1, 2, 3],
        signature: vec![0xff, 0xfe],
    });
    assert_eq!(
        client.build_url_with_identity().unwrap().unwrap(),
        "ws://127.0.0.1:1/signaling/ws?actor_id=a+b%26c&key_id=7&claims=AQID&signature=%2F%2F4%3D"
    );
    client.clear_identity();
    assert_eq!(client.build_url_with_identity().unwrap().unwrap(), "ws://127.0.0.1:1/signaling/ws");
}

#[test]
fn the_server_is_given_as_a_url() {
    let config = SignalingConfig::for_url("ws://Example.com").unwrap();
    assert_eq!(config.server_url, "ws://example.com/");
    assert_eq!(config.connection_timeout, 5);
    assert_eq!(config.heartbeat_interval, 30);
    let refused = SignalingConfig::for_url("no url").err();
    assert_eq!(refused.as_deref(), Some("relative URL without a base"));
}

#[test]
fn zero_is_no_time_limit() {
    let mut config = make_config();
    assert_eq!(WebSocketSignalingClient::new(make_config()).attempt_timeout(), Some(2));
    config.connection_timeout = 0;
    assert_eq!(WebSocketSignalingClient::new(config).attempt_timeout(), None);
}

// ── Envelopes ─────────────────────────────────────────────────────────────────

fn actor() -> ActrId {
    ActrId {
        realm: Realm { realm_id: 1 },
        serial_number: 42,
        actr_type: ActrType {
            manufacturer: "test".to_string(),
            name: "node".to_string(),
            version: "v1".to_string(),
        },
    }
}

fn credential() -> AIdCredential {
    AIdCredential { key_id: 1, claims: vec![], signature: vec![0u8; 64] }
}

fn reply(reply_for: Option<&str>, reply: ServerReply) -> SignalingEnvelope {
    SignalingEnvelope {
        envelope_version: 1,
        envelope_id: "srv-1".to_string(),
        reply_for: reply_for.map(String::from),
        timestamp_seconds: 0,
        timestamp_nanos: 0,
        traceparent: None,
        tracestate: None,
        flow: Flow::ServerToActr { reply },
    }
}

#[test]
fn test_envelope_id_monotonically_increasing() {
    let mut client = WebSocketSignalingClient::new(make_config());
    assert_eq!(client.next_envelope_id(), "env-1");
    assert_eq!(client.next_envelope_id(), "env-2");
    assert_eq!(client.next_envelope_id(), "env-3");
}

#[test]
fn test_send_envelope_fails_when_not_connected() {
    let mut client = WebSocketSignalingClient::new(make_config());
    match client.send_envelope() {
        Err(NetworkError::ConnectionError(msg)) => {
            assert!(msg.contains("not connected") || msg.contains("Not connected"), "{msg}");
        }
        other => panic!("unexpected {other:?}"),
    }
    client.connected = true;
    match client.send_envelope() {
        Err(NetworkError::ConnectionError(msg)) => assert_eq!(msg, "Not connected"),
        other => panic!("unexpected {other:?}"),
    }
    client.has_sink = true;
    client.send_envelope().unwrap();
    client.envelope_sent();
    assert_eq!(client.get_stats().messages_sent, 1);
}

#[test]
fn an_envelope_carries_the_present_time() {
    let mut client = WebSocketSignalingClient::new(make_config());
    let before = std::time::SystemTime::now()
        .duration_since(std::time::UNIX_EPOCH)
        .unwrap()
        .as_secs() as i64;
    let envelope = client.create_envelope(Flow::Other);
    assert!(envelope.timestamp_seconds >= before);
    assert!(envelope.timestamp_seconds <= before + 5);
    assert_eq!(envelope.envelope_version, 1);
    let envelope = client.create_envelope_at(Flow::Other, 77);
    assert_eq!(envelope.timestamp_seconds, 77);
    assert_eq!(envelope.envelope_id, "env-2");
}

#[test]
fn requests_say_who_asks() {
    let mut client = WebSocketSignalingClient::new(make_config());
    let ping = Ping { availability: 1, power_reserve_bits: 2, mailbox_backlog_bits: 3 };
    match client.heartbeat(actor(), credential(), ping).flow {
        Flow::ActrToServer { source, request: ActrRequest::Ping(p), .. } => {
            assert_eq!(source.serial_number, 42);
            assert_eq!(p.mailbox_backlog_bits, 3);
        }
        other => panic!("unexpected {other:?}"),
    }
    match client.unregister_request(actor(), credential(), Some("bye".to_string())).flow {
        Flow::ActrToServer { request: ActrRequest::Unregister { actr_id, reason }, .. } => {
            assert_eq!(actr_id.serial_number, 42);
            assert_eq!(reason.as_deref(), Some("bye"));
        }
        other => panic!("unexpected {other:?}"),
    }
    match client.signing_key_request(actor(), credential(), 9).flow {
        Flow::ActrToServer { request: ActrRequest::GetSigningKey { key_id }, .. } => {
            assert_eq!(key_id, 9);
        }
        other => panic!("unexpected {other:?}"),
    }
    match client.route_candidates_request(actor(), credential(), vec![5]).flow {
        Flow::ActrToServer { request: ActrRequest::RouteCandidates { body }, .. } => {
            assert_eq!(body, vec![5]);
        }
        other => panic!("unexpected {other:?}"),
    }
    match client.credential_update_request(actor(), credential()).flow {
        Flow::ActrToServer { request: ActrRequest::CredentialUpdate { actr_id }, .. } => {
            assert_eq!(actr_id.serial_number, 42);
        }
        other => panic!("unexpected {other:?}"),
    }
    match client.register_request(vec![1, 2]).flow {
        Flow::PeerToServer { register_request } => assert_eq!(register_request, vec![1, 2]),
        other => panic!("unexpected {other:?}"),
    }
}

#[test]
fn replies_are_read() {
    let pong = reply(None, ServerReply::Pong(Pong { body: vec![1] }));
    assert_eq!(read_heartbeat_reply(pong).unwrap().body, vec![1]);
    let registered = reply(None, ServerReply::Register(RegisterResponse { body: vec![2] }));
    assert_eq!(read_register_reply(registered).unwrap().body, vec![2]);
    let updated = reply(None, ServerReply::Register(RegisterResponse { body: vec![3] }));
    assert_eq!(read_credential_update_reply(updated).unwrap().body, vec![3]);
    let routes =
        reply(None, ServerReply::RouteCandidates(RouteCandidatesResponse { body: vec![4] }));
    assert_eq!(read_route_candidates_reply(routes).unwrap().body, vec![4]);
    let key = reply(None, ServerReply::SigningKey(SigningKeyResponse { key_id: 6, pubkey: vec![5] }));
    assert_eq!(read_signing_key_reply(key).unwrap(), (6, vec![5]));
}

#[test]
fn an_expired_credential_is_told_apart() {
    let expired = || {
        reply(
            None,
            ServerReply::Error(ErrorResponse { code: 401, message: "expired".to_string() }),
        )
    };
    assert!(matches!(read_heartbeat_reply(expired()), Err(NetworkError::CredentialExpired(_))));
    let other = reply(
        None,
        ServerReply::Error(ErrorResponse { code: 500, message: "broken".to_string() }),
    );
    assert!(matches!(
        read_route_candidates_reply(other),
        Err(NetworkError::ServiceDiscoveryError(_))
    ));
    assert!(read_register_reply(reply(None, ServerReply::Other)).is_err());
}

#[test]
fn a_reply_goes_to_whoever_waits() {
    let mut client = WebSocketSignalingClient::new(make_config());
    let request = client.register_request(vec![]);
    client.await_reply(&request, 9);
    let frame = || InboundFrame::Binary(Some(reply(Some("env-1"), ServerReply::Other)));
    match client.receive_frame(frame(), 50) {
        ReceiveAction::Deliver { waiter, .. } => assert_eq!(waiter, 9),
        other => panic!("unexpected {other:?}"),
    }
    assert!(matches!(client.receive_frame(frame(), 51), ReceiveAction::Forward { .. }));
    assert_eq!(client.get_stats().messages_received, 2);
    assert_eq!(client.last_pong, 51);
}

#[test]
fn frames_that_cannot_be_read_are_counted() {
    let mut client = WebSocketSignalingClient::new(make_config());
    assert!(matches!(
        client.receive_frame(InboundFrame::Binary(None), 5),
        ReceiveAction::Ignore
    ));
    assert_eq!(client.last_pong, 5);
    assert!(matches!(client.receive_frame(InboundFrame::Other, 6), ReceiveAction::Ignore));
    assert_eq!(client.last_pong, 5);
    assert!(matches!(client.receive_frame(InboundFrame::Failed, 7), ReceiveAction::Terminate));
    assert_eq!(client.get_stats().errors, 2);
    client.delivery_failed();
    assert_eq!(client.get_stats().errors, 3);
}

#[test]
fn waiting_for_a_reply_ends() {
    let mut client = WebSocketSignalingClient::new(make_config());
    let request = client.register_request(vec![]);
    client.await_reply(&request, 9);
    match client.send_envelope_and_wait_response("env-1", ReplyOutcome::TimedOut) {
        Err(NetworkError::ConnectionError(m)) => {
            assert_eq!(m, "Timed out waiting for signaling response");
        }
        other => panic!("unexpected {other:?}"),
    }
    assert!(client.pending_replies.get("env-1").is_none());
    let ping = Ping { availability: 0, power_reserve_bits: 0, mailbox_backlog_bits: 0 };
    let beat = client.heartbeat(actor(), credential(), ping);
    client.await_reply(&beat, 10);
    match client.heartbeat_response("env-2", ReplyOutcome::TimedOut) {
        Err(NetworkError::ConnectionError(m)) => {
            assert_eq!(m, "Timed out waiting for heartbeat response");
        }
        other => panic!("unexpected {other:?}"),
    }
    assert!(client.pending_replies.get("env-2").is_none());
    match client.heartbeat_response("env-1", ReplyOutcome::Dropped) {
        Err(NetworkError::ConnectionError(m)) => {
            assert_eq!(m, "Receiver dropped while waiting for heartbeat response");
        }
        other => panic!("unexpected {other:?}"),
    }
    let answered = ReplyOutcome::Reply(reply(Some("env-1"), ServerReply::Other));
    assert!(client.send_envelope_and_wait_response("env-1", answered).is_ok());
}

#[test]
fn the_inbound_channel_can_close() {
    let client = WebSocketSignalingClient::new(make_config());
    match client.receive_envelope(None) {
        Err(NetworkError::ConnectionError(m)) => assert_eq!(m, "Inbound channel closed"),
        other => panic!("unexpected {other:?}"),
    }
    assert!(client.receive_envelope(Some(reply(None, ServerReply::Other))).unwrap().is_some());
}

// ── Pings ─────────────────────────────────────────────────────────────────────

#[test]
fn silence_loses_the_connection() {
    let mut world = World::new(make_config(), true);
    world.connect().unwrap();
    assert!(matches!(world.client.ping_step(PingEvent::Tick), PingAction::SendPing));
    assert!(matches!(
        world.client.ping_step(PingEvent::Sent { now: 1010 }),
        PingAction::Sleep { secs: 5 }
    ));
    match world.client.ping_step(PingEvent::Sent { now: 1011 }) {
        PingAction::Lost { loss, abort_receiver } => {
            assert!(abort_receiver);
            assert!(loss.wake_reconnect);
            assert!(matches!(
                loss.event,
                SignalingEvent::Disconnected { reason: DisconnectReason::PongTimeout }
            ));
        }
        other => panic!("unexpected {other:?}"),
    }
    assert!(!world.client.is_connected());
    assert!(matches!(world.client.ping_step(PingEvent::Tick), PingAction::Stop));
}

#[test]
fn a_ping_that_cannot_be_sent_loses_the_connection() {
    let mut world = World::new(make_config_no_reconnect(), true);
    world.connect().unwrap();
    match world.client.ping_step(PingEvent::SendFailed) {
        PingAction::Lost { loss, .. } => {
            assert!(!loss.wake_reconnect);
            assert!(matches!(
                loss.event,
                SignalingEvent::Disconnected { reason: DisconnectReason::PingSendFailed }
            ));
        }
        other => panic!("unexpected {other:?}"),
    }
    assert!(!world.client.is_connected());
}

#[test]
fn the_present_time_counts_as_a_sign_of_life() {
    let mut client = WebSocketSignalingClient::new(make_config());
    client.establish_connection_once(AttemptOutcome::Opened).unwrap();
    assert!(matches!(client.ping_sent(), PingAction::Sleep { secs: 5 }));
    client.last_pong = 0;
    assert!(matches!(client.receive(InboundFrame::Pong), ReceiveAction::Ignore));
    assert!(matches!(client.ping_sent(), PingAction::Sleep { secs: 5 }));
}

// ── Waiting for another task's connection ─────────────────────────────────────

#[test]
fn others_wait_for_the_connection() {
    let mut client = WebSocketSignalingClient::new(make_config());
    let lost = SignalingEvent::Disconnected { reason: DisconnectReason::Manual };
    assert!(client.wait_for_connection_result(WaitEvent::Event(lost)).is_none());
    assert!(client.wait_for_connection_result(WaitEvent::Lagged).is_none());
    match client.wait_for_connection_result(WaitEvent::Deadline) {
        Some(Err(NetworkError::ConnectionError(m))) => {
            assert_eq!(m, "Timeout waiting for concurrent connection attempt");
        }
        other => panic!("unexpected {other:?}"),
    }
    match client.wait_for_connection_result(WaitEvent::Closed) {
        Some(Err(NetworkError::ConnectionError(m))) => {
            assert_eq!(m, "Event channel closed while waiting for connection");
        }
        other => panic!("unexpected {other:?}"),
    }
    assert!(matches!(
        client.wait_for_connection_result(WaitEvent::Event(SignalingEvent::Connected)),
        Some(Ok(()))
    ));
    client.connected = true;
    assert!(matches!(client.wait_for_connection_result(WaitEvent::Lagged), Some(Ok(()))));
    assert!(matches!(client.wait_for_connection_result(WaitEvent::Deadline), Some(Ok(()))));
}

// ── Life cycles ───────────────────────────────────────────────────────────────

#[test]
fn test_connect_and_disconnect_lifecycle() {
    let mut world = World::new(make_config_no_reconnect(), true);
    assert!(!world.client.is_connected());
    assert!(world.connect().is_ok());
    assert!(world.client.is_connected());
    assert!(world.server_connections >= 1);
    world.disconnect();
    assert!(!world.client.is_connected());
    let stats = world.client.get_stats();
    assert!(stats.connections >= 1);
    assert!(stats.disconnections >= 1);
}

#[test]
fn test_manual_reconnect_after_disconnect() {
    let mut world = World::new(make_config_no_reconnect(), true);
    world.connect().unwrap();
    assert!(world.client.is_connected());
    world.disconnect();
    assert!(!world.client.is_connected());
    world.connect().unwrap();
    assert!(world.client.is_connected());
    assert!(world.client.get_stats().connections >= 2);
}

#[test]
fn test_event_stream_tracks_lifecycle() {
    let mut world = World::new(make_config_no_reconnect(), true);
    world.connect().unwrap();
    assert!(matches!(world.events[0], SignalingEvent::Connected));
    world.disconnect();
    assert!(!world.client.is_connected());
}

#[test]
fn test_connect_to_unreachable_server_fails() {
    let mut config = make_config_no_reconnect();
    config.reconnect_config.max_attempts = 1;
    config.reconnect_config.max_delay = 1;
    config.reconnect_config.backoff_multiplier_percent = 100;
    let mut world = World::new(config, false);
    assert!(world.connect().is_err());
    assert!(!world.client.is_connected());
    assert!(matches!(
        world.events[..],
        [SignalingEvent::Disconnected { reason: DisconnectReason::ConnectionFailed(_) }]
    ));
}

#[test]
fn test_concurrent_connect_only_one_proceeds() {
    let mut world = World::new(make_config_no_reconnect(), true);
    assert!(matches!(world.client.connect(), ConnectPlan::Establish));
    assert!(matches!(world.client.connect(), ConnectPlan::WaitForOther));
    assert!(matches!(world.client.connect(), ConnectPlan::WaitForOther));
    world.establish().unwrap();
    let event = world.events.pop().unwrap();
    assert!(matches!(
        world.client.wait_for_connection_result(WaitEvent::Event(event)),
        Some(Ok(()))
    ));
    assert!(world.client.is_connected());
    assert_eq!(world.server_connections, 1);
}

#[test]
fn test_multiple_connect_disconnect_cycles() {
    let mut world = World::new(make_config_no_reconnect(), true);
    let cycles = 3;
    for _ in 1..=cycles {
        world.connect().unwrap();
        assert!(world.client.is_connected());
        world.disconnect();
        assert!(!world.client.is_connected());
    }
    assert!(world.client.get_stats().connections >= cycles as u64);
}

#[test]
fn test_server_shutdown_detected_by_client() {
    let mut world = World::new(make_config_no_reconnect(), true);
    world.connect().unwrap();
    world.shut_server_down();
    assert!(matches!(
        world.events.last(),
        Some(SignalingEvent::Disconnected { reason: DisconnectReason::StreamEnded })
    ));
    assert!(!world.client.is_connected());
    assert_eq!(world.reconnect_wanted, 0);
}

#[test]
fn test_auto_reconnect_manager_triggers_retries() {
    let mut config = make_config();
    config.reconnect_config = ReconnectConfig {
        enabled: true,
        max_attempts: 10,
        initial_delay: 1,
        max_delay: 3,
        backoff_multiplier_percent: 200,
    };
    let mut world = World::new(config, true);
    assert!(world.client.start_reconnect_manager());
    world.connect().unwrap();
    world.shut_server_down();
    assert!(!world.client.is_connected());
    assert_eq!(world.reconnect_wanted, 1);
    world.reconnect(None);
    assert!(!world.client.is_connected());
    let attempts = world
        .events
        .iter()
        .filter(|e| matches!(e, SignalingEvent::ConnectStart { .. }))
        .count();
    assert_eq!(attempts, 10);
}

#[test]
fn test_connect_to_convenience_method() {
    let config = SignalingConfig::for_url("ws://127.0.0.1:4000/signaling/ws").unwrap();
    let mut world = World::new(config, true);
    assert!(world.client.start_reconnect_manager());
    world.connect().unwrap();
    assert!(world.client.is_connected());
    world.disconnect();
}

#[test]
fn test_connection_stability_after_connect() {
    let mut world = World::new(make_config_no_reconnect(), true);
    world.connect().unwrap();
    for _ in 0..6 {
        world.now += 1;
        assert!(matches!(world.client.ping_step(PingEvent::Tick), PingAction::SendPing));
        let sent = PingEvent::Sent { now: world.now };
        assert!(matches!(world.client.ping_step(sent), PingAction::Sleep { .. }));
        world.client.receive_frame(InboundFrame::Pong, world.now);
    }
    assert!(world.client.is_connected());
    assert_eq!(world.client.get_stats().errors, 0);
}

#[test]
fn test_reconnect_restarts_background_tasks() {
    let mut world = World::new(make_config_no_reconnect(), true);
    world.connect().unwrap();
    assert!(world.client.is_connected());
    world.disconnect();
    assert!(!world.client.is_connected());
    assert!(!world.client.receiver_running && !world.client.ping_running);
    world.connect().unwrap();
    assert!(world.client.is_connected());
    assert!(world.client.receiver_running && world.client.ping_running);
}

#[test]
fn test_connect_with_retries_exhausts_attempts() {
    let mut config = make_config();
    config.connection_timeout = 1;
    config.reconnect_config = ReconnectConfig {
        enabled: true,
        max_attempts: 2,
        initial_delay: 1,
        max_delay: 2,
        backoff_multiplier_percent: 200,
    };
    let mut world = World::new(config, false);
    assert!(world.connect().is_err());
    assert!(!world.client.is_connected());
    assert!(world.slept_millis >= 1000);
    assert_eq!(world.hooks.len(), 3);
    assert!(matches!(world.hooks[2], HookEvent::SignalingConnectStart { attempt: 3 }));
}

#[test]
fn test_auto_reconnect_succeeds_after_server_restart() {
    let mut config = make_config();
    config.connection_timeout = 5;
    config.reconnect_config = ReconnectConfig {
        enabled: true,
        max_attempts: 20,
        initial_delay: 1,
        max_delay: 2,
        backoff_multiplier_percent: 150,
    };
    let mut world = World::new(config, true);
    world.client.start_reconnect_manager();
    world.connect().unwrap();
    world.shut_server_down();
    assert!(!world.client.is_connected());
    assert!(world.client.manager_runs_cycle());
    world.reconnect(Some(3));
    assert!(matches!(world.events.last(), Some(SignalingEvent::Connected)));
    assert!(world.client.is_connected());
    assert!(world.client.get_stats().connections >= 2);
}

#[test]
fn test_multiple_disconnects_each_trigger_reconnect() {
    let mut config = make_config();
    config.reconnect_config.max_attempts = 30;
    config.reconnect_config.max_delay = 2;
    config.reconnect_config.backoff_multiplier_percent = 150;
    let mut world = World::new(config, true);
    world.client.start_reconnect_manager();
    world.connect().unwrap();
    for cycle in 1..=3 {
        world.shut_server_down();
        assert!(!world.client.is_connected());
        assert_eq!(world.reconnect_wanted, cycle);
        world.reconnect(Some(2));
        assert!(world.client.is_connected());
    }
    assert_eq!(world.client.get_stats().connections, 4);
}

#[test]
fn a_cycle_that_fails_cools_down() {
    let mut config = make_config();
    config.reconnect_config.max_attempts = 0;
    config.reconnect_config.max_delay = 3;
    let mut world = World::new(config, false);
    world.reconnect(None);
    assert_eq!(world.slept_millis, 6000);
}

#[test]
fn a_cycle_ends_if_somebody_else_connects() {
    let mut client = WebSocketSignalingClient::new(make_config());
    let (mut cycle, _) = ReconnectCycle::run_reconnect_cycle();
    cycle.step(&client, CycleEvent::CleanedUp);
    client.connected = true;
    assert!(matches!(cycle.step(&client, CycleEvent::Delay(Some(1000))), CycleAction::Stop));
}

#[test]
fn the_shortest_pause_is_slept() {
    let refused = || Err(NetworkError::ConnectionError("refused".to_string()));
    for nanos in [1, 999_999, 1_000_000, u128::from(u64::MAX) * 1_000_000_000] {
        let config = make_config().reconnect_config;
        let (mut task, _) = RetryTask::connect_with_retries(&config);
        task.step(AttemptEvent::HookDone);
        task.step(AttemptEvent::Attempted(refused()));
        task.step(AttemptEvent::Delay(Some(nanos)));
        assert!(matches!(
            task.step(AttemptEvent::HookDone),
            AttemptAction::Sleep { nanos: slept } if slept == nanos
        ));
        let client = WebSocketSignalingClient::new(make_config());
        let (mut cycle, _) = ReconnectCycle::run_reconnect_cycle();
        cycle.step(&client, CycleEvent::CleanedUp);
        cycle.step(&client, CycleEvent::Delay(Some(nanos)));
        assert!(matches!(
            cycle.step(&client, CycleEvent::Attempted { connected: false }),
            CycleAction::Sleep { nanos: slept } if slept == nanos
        ));
    }
    let (mut task, _) = RetryTask::connect_with_retries(&make_config().reconnect_config);
    task.step(AttemptEvent::HookDone);
    task.step(AttemptEvent::Attempted(refused()));
    task.step(AttemptEvent::Delay(Some(0)));
    assert!(matches!(task.step(AttemptEvent::HookDone), AttemptAction::Attempt));
}

#[test]
fn no_pause_is_shorter_than_a_second() {
    let config = ReconnectConfig {
        enabled: true,
        max_attempts: 4,
        initial_delay: 0,
        max_delay: 0,
        backoff_multiplier_percent: 200,
    };
    let settings = config.backoff();
    assert_eq!(settings.initial_delay, 1);
    assert_eq!(settings.max_delay, 1);
    assert_eq!(settings.max_retries, 4);
}

#[test]
fn only_the_first_hook_is_installed() {
    let mut client = WebSocketSignalingClient::new(make_config());
    assert!(client.set_hook_callback());
    assert!(!client.set_hook_callback());
}

#[test]
fn a_time_before_the_epoch_counts_as_the_epoch() {
    assert_eq!(secs_or_epoch(Some(1_700_000_000)), 1_700_000_000);
    assert_eq!(secs_or_epoch(Some(0)), 0);
    assert_eq!(secs_or_epoch(None), 0);
}

#[test]
fn a_notice_that_was_sent_is_a_success() {
    assert_eq!(
        WebSocketSignalingClient::unregistered(Ok(())).unwrap(),
        UnregisterResponse::Success
    );
    let failed = Err(NetworkError::ConnectionError("gone".to_string()));
    assert!(matches!(
        WebSocketSignalingClient::unregistered(failed),
        Err(NetworkError::ConnectionError(m)) if m == "gone"
    ));
}
