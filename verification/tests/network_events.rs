use actr::lifecycle::network_event::{
    deduplicate_network_events, event_outcome, DebounceConfig, DefaultNetworkEventProcessor,
    NetworkEvent, NetworkEventProcessor, NetworkEventResult, Recovery, RecoveryStep, StepOutcome,
    DEFAULT_WINDOW_NANOS,
};

#[test]
fn test_deduplicate_empty() {
    let events = vec![];
    let result = deduplicate_network_events(events);
    assert_eq!(result.len(), 0);
}

#[test]
fn test_deduplicate_single_event() {
    let events = vec![NetworkEvent::Available];
    let result = deduplicate_network_events(events);
    assert_eq!(result.len(), 1);
    assert!(matches!(result[0], NetworkEvent::Available));
}

#[test]
fn test_deduplicate_same_type_events() {
    let events = vec![NetworkEvent::Available, NetworkEvent::Available, NetworkEvent::Available];
    let result = deduplicate_network_events(events);

    assert_eq!(result.len(), 1);
    assert!(matches!(result[0], NetworkEvent::Available));
}

#[test]
fn test_deduplicate_different_type_events() {
    let events = vec![
        NetworkEvent::Available,
        NetworkEvent::Lost,
        NetworkEvent::TypeChanged { is_wifi: true, is_cellular: false },
    ];
    let result = deduplicate_network_events(events);

    assert_eq!(result.len(), 3);
    assert!(matches!(result[0], NetworkEvent::Available));
    assert!(matches!(result[1], NetworkEvent::Lost));
    assert!(matches!(result[2], NetworkEvent::TypeChanged { .. }));
}

#[test]
fn test_deduplicate_mixed_events() {
    let events = vec![
        NetworkEvent::Available,
        NetworkEvent::Lost,
        NetworkEvent::Available,
        NetworkEvent::TypeChanged { is_wifi: true, is_cellular: false },
        NetworkEvent::Lost,
        NetworkEvent::Available,
    ];
    let result = deduplicate_network_events(events);

    assert_eq!(result.len(), 3);
    assert!(matches!(result[0], NetworkEvent::TypeChanged { .. }));
    assert!(matches!(result[1], NetworkEvent::Lost));
    assert!(matches!(result[2], NetworkEvent::Available));
}

#[test]
fn test_deduplicate_preserves_order() {
    let events = vec![
        NetworkEvent::Lost,
        NetworkEvent::TypeChanged { is_wifi: true, is_cellular: false },
        NetworkEvent::Available,
        NetworkEvent::Lost,
    ];
    let result = deduplicate_network_events(events);

    assert_eq!(result.len(), 3);
    assert!(matches!(result[0], NetworkEvent::TypeChanged { .. }));
    assert!(matches!(result[1], NetworkEvent::Available));
    assert!(matches!(result[2], NetworkEvent::Lost));
}

#[test]
fn deduplicating_twice_changes_nothing() {
    let events = vec![
        NetworkEvent::CleanupConnections,
        NetworkEvent::Lost,
        NetworkEvent::TypeChanged { is_wifi: true, is_cellular: false },
        NetworkEvent::TypeChanged { is_wifi: false, is_cellular: true },
        NetworkEvent::Lost,
    ];
    let once = deduplicate_network_events(events);
    assert_eq!(
        once,
        vec![
            NetworkEvent::CleanupConnections,
            NetworkEvent::TypeChanged { is_wifi: false, is_cellular: true },
            NetworkEvent::Lost,
        ]
    );
    assert_eq!(deduplicate_network_events(once.clone()), once);
}

// ── Debouncing ────────────────────────────────────────────────────────────────

const MILLI: u128 = 1_000_000;

/// A signaling client that only counts.
struct FakeSignalingClient {
    connected: bool,
    connections: u64,
    disconnections: u64,
    now: u128,
}

impl FakeSignalingClient {
    fn connected() -> Self {
        FakeSignalingClient { connected: true, connections: 1, disconnections: 0, now: 0 }
    }

    fn perform(&mut self, mut recovery: Recovery) -> Result<(), String> {
        while let Some(step) = recovery.step(self.connected) {
            match step {
                RecoveryStep::Disconnect => {
                    self.connected = false;
                    self.disconnections += 1;
                }
                RecoveryStep::Connect { .. } => {
                    self.connected = true;
                    self.connections += 1;
                }
                RecoveryStep::Sleep { millis } => self.now += millis as u128 * MILLI,
                _ => {}
            }
            recovery.completed(StepOutcome::Done)?;
        }
        Ok(())
    }
}

fn processor(window_millis: u128) -> DefaultNetworkEventProcessor {
    DefaultNetworkEventProcessor::new_with_debounce(
        false,
        DebounceConfig { window_nanos: window_millis * MILLI },
    )
}

#[test]
fn test_network_available_debounced() {
    let mut client = FakeSignalingClient::connected();
    let mut processor = processor(500);

    let recovery = processor.process_network_available(client.now);
    client.perform(recovery).unwrap();
    assert_eq!(client.connections, 2);
    assert_eq!(client.disconnections, 1);

    let recovery = processor.process_network_available(client.now);
    client.perform(recovery).unwrap();
    assert_eq!(client.connections, 2, "debounced call should not reconnect");
    assert_eq!(client.disconnections, 1, "debounced call should not disconnect");

    client.now += 600 * MILLI;

    let recovery = processor.process_network_available(client.now);
    client.perform(recovery).unwrap();
    assert_eq!(client.connections, 3);
    assert_eq!(client.disconnections, 2);
}

#[test]
fn test_debounce_does_not_cross_event_types() {
    let mut client = FakeSignalingClient::connected();
    let mut processor = processor(500);

    let recovery = processor.process_network_available(client.now);
    client.perform(recovery).unwrap();

    let recovery = processor.process_network_lost(client.now);
    client.perform(recovery).unwrap();

    assert_eq!(client.connections, 2);
    assert_eq!(client.disconnections, 2);
}

#[test]
fn test_race_condition_type_changed_internal_call_debounced() {
    let mut client = FakeSignalingClient::connected();
    let mut processor = processor(2000);

    let recovery = processor.process_network_available(client.now);
    client.perform(recovery).unwrap();
    assert_eq!(client.connections, 2, "First Available should reconnect");
    assert_eq!(client.disconnections, 1, "First Available should disconnect once");
    assert!(client.connected, "Should be connected after Available");

    client.now += 10 * MILLI;

    let recovery = processor.process_network_type_changed(true, false, client.now);
    client.perform(recovery).unwrap();
    assert_eq!(client.connections, 3, "a change of type should reconnect");
    assert_eq!(client.disconnections, 2, "a change of type should disconnect once");
    assert!(client.connected, "After TypeChanged, client should be connected");
}

#[test]
fn test_type_changed_works_without_prior_available() {
    let mut client = FakeSignalingClient::connected();
    let mut processor = processor(2000);

    let recovery = processor.process_network_type_changed(true, false, client.now);
    client.perform(recovery).unwrap();
    assert!(client.connected, "TypeChanged should complete successfully");
}

#[test]
fn the_window_is_two_seconds_unless_said_otherwise() {
    assert_eq!(DebounceConfig::default().window_nanos, 2_000 * MILLI);
    assert_eq!(DEFAULT_WINDOW_NANOS, 2_000 * MILLI);
    let mut p = DefaultNetworkEventProcessor::new(false);
    assert!(p.should_process_event(&NetworkEvent::Lost, 0));
    assert!(!p.should_process_event(&NetworkEvent::Lost, 2_000 * MILLI - 1));
    assert!(p.should_process_event(&NetworkEvent::Lost, 2_000 * MILLI));
}

#[test]
fn cleanups_are_not_held_back() {
    let mut p = DefaultNetworkEventProcessor::new(true);
    assert!(p.should_process_event(&NetworkEvent::CleanupConnections, 0));
    assert!(p.should_process_event(&NetworkEvent::CleanupConnections, 0));
    assert_eq!(
        p.cleanup_connections().steps,
        vec![
            RecoveryStep::ClearPendingRestarts,
            RecoveryStep::CloseAllPeers,
            RecoveryStep::Disconnect,
            RecoveryStep::Connect { after_cleanup: true },
        ]
    );
}

#[test]
fn peer_connections_are_looked_after() {
    let mut p = DefaultNetworkEventProcessor::new(true);
    assert_eq!(
        p.process_network_type_changed(false, true, 0).steps,
        vec![
            RecoveryStep::ClearPendingRestarts,
            RecoveryStep::Disconnect,
            RecoveryStep::Sleep { millis: 500 },
            RecoveryStep::Disconnect,
            RecoveryStep::Sleep { millis: 100 },
            RecoveryStep::Connect { after_cleanup: false },
            RecoveryStep::RetryFailedConnections,
        ]
    );
    assert!(p.process_network_type_changed(false, true, 1).steps.is_empty());
}

#[test]
fn a_failed_connection_fails_the_recovery() {
    let mut p = DefaultNetworkEventProcessor::new(true);
    let mut recovery = p.process_network_available(0);
    assert_eq!(recovery.step(false), Some(RecoveryStep::Sleep { millis: 100 }));
    recovery.completed(StepOutcome::Done).unwrap();
    assert_eq!(recovery.step(false), Some(RecoveryStep::Connect { after_cleanup: false }));
    assert_eq!(
        recovery.completed(StepOutcome::Failed { reason: "refused".to_string() }),
        Err("WebSocket reconnect failed: refused".to_string())
    );
    assert_eq!(recovery.step(false), None);

    let mut recovery = DefaultNetworkEventProcessor::new(false).cleanup_connections();
    assert_eq!(recovery.step(false), Some(RecoveryStep::Connect { after_cleanup: true }));
    assert_eq!(
        recovery.completed(StepOutcome::Failed { reason: "refused".to_string() }),
        Err("Failed to reconnect signaling after cleanup: refused".to_string())
    );
}

// ── Results ───────────────────────────────────────────────────────────────────

#[test]
fn results_say_what_happened() {
    let good = NetworkEventResult::success(NetworkEvent::Lost, 12);
    assert!(good.success);
    assert_eq!(good.error, None);
    assert_eq!(good.duration_ms, 12);
    let bad = NetworkEventResult::failure(NetworkEvent::Available, "no".to_string(), 3);
    assert!(!bad.success);
    assert_eq!(bad.event, NetworkEvent::Available);
    assert_eq!(bad.error.as_deref(), Some("no"));
}

#[test]
fn a_handle_returns_the_result_or_why_there_is_none() {
    let result = NetworkEventResult::success(NetworkEvent::Lost, 1);
    assert!(event_outcome(None, Some(result)).unwrap().success);
    assert_eq!(
        event_outcome(Some("closed".to_string()), None).unwrap_err(),
        "Failed to send network event: closed"
    );
    assert_eq!(event_outcome(None, None).unwrap_err(), "Failed to receive network event result");
}
