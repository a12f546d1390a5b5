use actr::config::config::{Config, ObservabilityConfig, PackageInfo, WebRtcConfig};
use actr::encoding::{append_pairs, has_base64_room};
use actr::ffi::error::ActrError as FfiError;
use actr::ffi::opus::{codec_error, CodecStep, OpusChannels, OpusEncoder};
use actr::lifecycle::actr_system::{storage_paths, ActrSystem, StorageOutcome};
use actr::lifecycle::network_event::DebounceConfig;
use actr::protocol::{ActrError, ActrType, PayloadType, Realm};
use actr::text_table::TextTable;

fn config() -> Config {
    Config {
        package: PackageInfo {
            name: "echo".to_string(),
            actr_type: ActrType {
                manufacturer: "acme".to_string(),
                name: "echo".to_string(),
                version: "1".to_string(),
            },
            description: None,
            authors: vec![],
            license: None,
        },
        exports: vec![],
        dependencies: vec![],
        signaling_url: "ws://localhost:8081/".to_string(),
        realm: Realm { realm_id: 1 },
        visible_in_discovery: true,
        acl: None,
        mailbox_path: None,
        tags: vec![],
        scripts: TextTable::new(),
        webrtc: WebRtcConfig::default(),
        websocket_listen_port: None,
        websocket_advertised_host: None,
        observability: ObservabilityConfig {
            filter_level: "info".to_string(),
            tracing_enabled: false,
            tracing_endpoint: String::new(),
            tracing_service_name: String::new(),
        },
        config_dir: "conf".to_string(),
    }
}

// ── The system ────────────────────────────────────────────────────────────────

#[test]
fn messages_are_kept_in_memory_or_in_two_files() {
    let paths = storage_paths(&config());
    assert_eq!(paths.mailbox, ":memory:");
    assert_eq!(paths.dead_letters, ":memory:");
    let mut config = config();
    config.mailbox_path = Some("data/mail.db".to_string());
    let paths = storage_paths(&config);
    assert_eq!(paths.mailbox, "data/mail.db");
    assert_eq!(paths.dead_letters, "data/mail.db.dlq");
}

#[test]
fn a_store_that_cannot_be_opened_is_named() {
    match ActrSystem::new(config(), StorageOutcome::MailboxFailed("locked".to_string())).err() {
        Some(ActrError::Unavailable(m)) => assert_eq!(m, "Mailbox init failed: locked"),
        other => panic!("unexpected {other:?}"),
    }
    match ActrSystem::new(config(), StorageOutcome::DeadLettersFailed("full".to_string())).err() {
        Some(ActrError::Unavailable(m)) => assert_eq!(m, "DLQ init failed: full"),
        other => panic!("unexpected {other:?}"),
    }
}

#[test]
fn a_system_has_a_signaling_client() {
    let system = ActrSystem::new(config(), StorageOutcome::Open).ok().unwrap();
    let client = &system.signaling_client;
    assert!(client.reconnector_started);
    assert!(!client.is_connected());
    assert_eq!(client.config.server_url, "ws://localhost:8081/");
    assert_eq!(client.config.connection_timeout, 30);
    assert_eq!(client.config.heartbeat_interval, 30);
    assert_eq!(client.config.webrtc_role, None);
    assert!(client.actor_id.is_none());
    assert!(client.credential.is_none());
    assert!(!client.has_sink && !client.has_stream && !client.connecting);
    assert!(!client.receiver_running && !client.ping_running && !client.hook_installed);
    assert_eq!((client.envelope_counter, client.last_pong), (0, 0));
    let stats = client.get_stats();
    assert_eq!((stats.connections, stats.disconnections), (0, 0));
    assert_eq!((stats.messages_sent, stats.messages_received, stats.errors), (0, 0, 0));

    let mut config = config();
    config.webrtc.advanced.udp_ports = Some((1, 2));
    let system = ActrSystem::new(config, StorageOutcome::Open).ok().unwrap();
    assert_eq!(system.signaling_client.config.webrtc_role.as_deref(), Some("answer"));
}

#[test]
fn network_events_are_handled_on_demand() {
    let mut system = ActrSystem::new(config(), StorageOutcome::Open).ok().unwrap();
    assert!(!system.has_network_events());
    system.create_network_event_handle(250);
    assert!(system.has_network_events());
    let node = system.attach("workload", Err::<(), String>("no lock file".to_string()));
    assert_eq!(node.workload, "workload");
    assert_eq!(node.actr_lock, None);
    assert_eq!(
        node.network_events.unwrap().debounce,
        Some(DebounceConfig { window_nanos: 250_000_000 })
    );

    let mut system = ActrSystem::new(config(), StorageOutcome::Open).ok().unwrap();
    system.create_network_event_handle(0);
    let events = system.network_events.unwrap();
    assert_eq!(events.debounce, None);
    assert_eq!(events.debounce_config(), DebounceConfig::default());
}

#[test]
fn a_lock_file_is_taken_along() {
    let system = ActrSystem::new(config(), StorageOutcome::Open).ok().unwrap();
    assert_eq!(system.lock_path(), "conf/Actr.lock.toml");
    let node = system.attach((), Ok::<u8, String>(7));
    assert_eq!(node.actr_lock, Some(7));
    assert!(node.network_events.is_none());
    assert!(node.actor_id.is_none());
    assert!(node.credential.is_none());

    let mut config = config();
    config.config_dir = String::new();
    let system = ActrSystem::new(config, StorageOutcome::Open).ok().unwrap();
    assert_eq!(system.lock_path(), "Actr.lock.toml");
}

// ── Payload types ─────────────────────────────────────────────────────────────

#[test]
fn payload_types_have_codes() {
    assert_eq!(PayloadType::RpcReliable.code(), 0);
    assert_eq!(PayloadType::RpcSignal.code(), 1);
    assert_eq!(PayloadType::StreamReliable.code(), 2);
    assert_eq!(PayloadType::StreamLatencyFirst.code(), 3);
    assert_eq!(PayloadType::MediaRtp.code(), 4);
}

// ── URLs ──────────────────────────────────────────────────────────────────────

#[test]
fn pairs_are_appended_to_a_url() {
    let pairs = vec![
        ("a".to_string(), "1".to_string()),
        ("b c".to_string(), "\u{e9}&=".to_string()),
    ];
    assert_eq!(
        append_pairs("ws://host/path?x=0", &pairs).unwrap().unwrap(),
        "ws://host/path?x=0&a=1&b+c=%C3%A9%26%3D"
    );
    assert_eq!(append_pairs("ws://host", &vec![]).unwrap().unwrap(), "ws://host");
    assert!(append_pairs("no url", &pairs).unwrap().is_err());
}

#[test]
fn pairs_go_before_the_fragment() {
    let pairs = vec![("a".to_string(), "1".to_string())];
    for (url, expected) in [
        ("ws://host/p#end", "ws://host/p?a=1#end"),
        ("ws://host/p?#end", "ws://host/p?a=1#end"),
        ("ws://host/p?b=2#end?x", "ws://host/p?b=2&a=1#end?x"),
    ] {
        assert_eq!(append_pairs(url, &pairs).unwrap().unwrap(), expected);
    }
}

#[test]
fn long_pairs_are_appended() {
    let value = "%".repeat(1_000_000);
    let pairs = vec![("a".to_string(), value)];
    let url = append_pairs("ws://host/p", &pairs).unwrap().unwrap();
    assert_eq!(url.len(), "ws://host/p?a=".len() + 3_000_000);
}

#[test]
fn octets_have_a_base64_form() {
    assert!(has_base64_room(&[]));
    assert!(has_base64_room(&[0; 1000]));
}

// ── Errors that foreign callers see ───────────────────────────────────────────

#[test]
fn errors_are_told_to_foreign_callers() {
    let cases: Vec<(ActrError, &str)> = vec![
        (ActrError::Unavailable("x".to_string()), "Connection error: x"),
        (ActrError::TimedOut, "Timeout error: operation timed out"),
        (ActrError::NotFound("x".to_string()), "RPC error: x"),
        (ActrError::PermissionDenied("x".to_string()), "RPC error: x"),
        (ActrError::InvalidArgument("x".to_string()), "RPC error: x"),
        (ActrError::UnknownRoute("x".to_string()), "RPC error: x"),
        (ActrError::DecodeFailure("x".to_string()), "RPC error: x"),
        (ActrError::NotImplemented("x".to_string()), "RPC error: x"),
        (ActrError::Internal("x".to_string()), "RPC error: x"),
        (
            ActrError::DependencyNotFound {
                service_name: "s".to_string(),
                message: "m".to_string(),
            },
            "RPC error: dependency 's' not found: m",
        ),
    ];
    for (error, words) in cases {
        assert_eq!(FfiError::from(error).describe(), words);
    }
}

#[test]
fn errors_come_back_from_foreign_callers() {
    let msg = || "x".to_string();
    assert!(matches!(
        ActrError::from(FfiError::ConfigError { msg: msg() }),
        ActrError::InvalidArgument(m) if m == "x"
    ));
    assert!(matches!(
        ActrError::from(FfiError::ConnectionError { msg: msg() }),
        ActrError::Unavailable(m) if m == "x"
    ));
    assert!(matches!(
        ActrError::from(FfiError::TimeoutError { msg: msg() }),
        ActrError::TimedOut
    ));
    for error in [
        FfiError::RpcError { msg: msg() },
        FfiError::StateError { msg: msg() },
        FfiError::InternalError { msg: msg() },
        FfiError::WorkloadError { msg: msg() },
    ] {
        assert!(matches!(ActrError::from(error), ActrError::Internal(m) if m == "x"));
    }
    assert_eq!(FfiError::ConfigError { msg: msg() }.describe(), "Configuration error: x");
    assert_eq!(FfiError::StateError { msg: msg() }.describe(), "State error: x");
    assert_eq!(FfiError::InternalError { msg: msg() }.describe(), "Internal error: x");
    assert_eq!(FfiError::WorkloadError { msg: msg() }.describe(), "Workload error: x");
}

// ── Audio frames ──────────────────────────────────────────────────────────────

#[test]
fn audio_has_one_or_two_channels() {
    let mono = OpusEncoder::new(1, 960).unwrap();
    assert!(matches!(mono.channels, OpusChannels::Mono));
    assert_eq!(mono.frame_size(), 960);
    assert!(matches!(OpusEncoder::new(2, 960).unwrap().channels, OpusChannels::Stereo));
    match OpusEncoder::new(3, 960) {
        Err(FfiError::InternalError { msg }) => {
            assert_eq!(msg, "Unsupported Opus channel count: 3");
        }
        other => panic!("unexpected {other:?}"),
    }
}

#[test]
fn a_frame_has_all_its_samples() {
    let stereo = OpusEncoder::new(2, 960).unwrap();
    stereo.check_frame(1920).unwrap();
    match stereo.check_frame(960) {
        Err(FfiError::InternalError { msg }) => {
            assert_eq!(msg, "Expected 1920 PCM samples for Opus frame, got 960");
        }
        other => panic!("unexpected {other:?}"),
    }
    assert_eq!(OpusEncoder::packet(vec![1, 2, 3, 4], 2), vec![1, 2]);
    assert_eq!(OpusEncoder::packet(vec![1, 2], 5), vec![1, 2]);
}

#[test]
fn failures_of_the_codec_are_named() {
    let cases = [
        (CodecStep::Create, "Internal error: Failed to create Opus encoder: bad"),
        (CodecStep::SetBitrate, "Internal error: Failed to configure Opus bitrate: bad"),
        (CodecStep::Encode, "Internal error: Failed to encode Opus frame: bad"),
    ];
    for (step, words) in cases {
        assert_eq!(codec_error(step, "bad").describe(), words);
    }
}
