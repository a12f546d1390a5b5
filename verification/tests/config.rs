use actr::config::config::{
    Config, Dependency, IceServer, IceTransportPolicy, ObservabilityConfig, PackageInfo, ProtoFile,
    ServiceRef, WebRtcAdvancedConfig, WebRtcConfig,
};
use actr::protocol::{ActrType, Realm};
use actr::text_table::TextTable;

fn config() -> Config {
    Config {
        package: PackageInfo {
            name: "test-service".to_string(),
            actr_type: ActrType {
                manufacturer: "acme".to_string(),
                name: "test-service".to_string(),
                version: "1.0.0".to_string(),
            },
            description: None,
            authors: vec![],
            license: None,
        },
        exports: vec![],
        dependencies: vec![
            Dependency {
                alias: "user-service".to_string(),
                realm: Realm { realm_id: 1001 },
                actr_type: Some(ActrType {
                    manufacturer: "acme".to_string(),
                    name: "user-service".to_string(),
                    version: "2.1.0".to_string(),
                }),
                service: Some(ServiceRef {
                    name: "UserService".to_string(),
                    fingerprint: "abc123".to_string(),
                }),
            },
            Dependency {
                alias: "shared-logger".to_string(),
                realm: Realm { realm_id: 9999 },
                actr_type: Some(ActrType {
                    manufacturer: "common".to_string(),
                    name: "logging-service".to_string(),
                    version: "v1".to_string(),
                }),
                service: None,
            },
        ],
        signaling_url: "ws://localhost:8081/".to_string(),
        realm: Realm { realm_id: 1001 },
        visible_in_discovery: true,
        acl: None,
        mailbox_path: None,
        tags: vec![],
        scripts: TextTable::new(),
        webrtc: WebRtcConfig::default(),
        websocket_listen_port: None,
        websocket_advertised_host: None,
        observability: ObservabilityConfig {
            filter_level: "info".to_string(),
            tracing_enabled: false,
            tracing_endpoint: "http://localhost:4317".to_string(),
            tracing_service_name: "test-service".to_string(),
        },
        config_dir: ".".to_string(),
    }
}

#[test]
fn test_config_methods() {
    let config = config();

    assert!(config.get_dependency("user-service").is_some());
    assert!(config.get_dependency("not-exists").is_none());

    let cross_realm = config.cross_realm_dependencies();
    assert_eq!(cross_realm.len(), 1);
    assert_eq!(cross_realm[0].alias, "shared-logger");

    let user_dep = config.get_dependency("user-service").unwrap();
    assert!(user_dep.matches_fingerprint("abc123"));
    assert!(!user_dep.matches_fingerprint("different"));

    let logger_dep = config.get_dependency("shared-logger").unwrap();
    assert!(logger_dep.matches_fingerprint("any-fingerprint"));
    assert!(!logger_dep.requires_exact_fingerprint());
}

#[test]
fn a_package_names_its_type() {
    let config = config();
    assert_eq!(config.actr_type().version, "1.0.0");
    assert_eq!(config.package.manufacturer(), "acme");
    assert_eq!(config.package.actor_type_name(), "test-service");
}

#[test]
fn scripts_are_found_by_name() {
    let mut config = config();
    config.scripts.insert("run".to_string(), "cargo run".to_string());
    config.scripts.insert("test".to_string(), "cargo test".to_string());
    assert_eq!(config.get_script("run"), Some("cargo run"));
    assert_eq!(config.get_script("build"), None);
    let mut names = config.list_scripts();
    names.sort();
    assert_eq!(names, vec!["run", "test"]);
}

fn with_exports() -> Config {
    let mut config = config();
    config.exports = vec![
        ProtoFile { path: "proto/echo.proto".to_string(), content: "one".to_string() },
        ProtoFile { path: "proto/README".to_string(), content: "two".to_string() },
    ];
    config.tags = vec!["stable".to_string()];
    config
}

#[test]
fn exported_files_have_names() {
    let config = with_exports();
    assert_eq!(config.proto_paths(), vec!["proto/echo.proto", "proto/README"]);
    assert_eq!(config.proto_contents(), vec!["one", "two"]);
    assert_eq!(config.exports[0].file_name().as_deref(), Some("echo.proto"));
    assert_eq!(config.exports[0].extension().as_deref(), Some("proto"));
    assert_eq!(config.exports[1].file_name().as_deref(), Some("README"));
    assert_eq!(config.exports[1].extension(), None);
    let hidden = ProtoFile { path: "a/.hidden".to_string(), content: String::new() };
    assert_eq!(hidden.extension(), None);
    let up = ProtoFile { path: "..".to_string(), content: String::new() };
    assert_eq!(up.file_name(), None);
}

#[test]
fn a_service_without_exports_has_no_spec() {
    assert!(config().calculate_service_spec(Some("f".to_string()), &vec![]).is_none());
}

#[test]
fn a_service_spec_names_its_files() {
    let config = with_exports();
    let inputs = config.fingerprint_inputs();
    assert_eq!(inputs[0].name, "echo.proto");
    assert_eq!(inputs[0].content, "one");
    assert_eq!(inputs[0].path.as_deref(), Some("proto/echo.proto"));

    let spec = config
        .service_spec_at(Some("all".to_string()), &vec![Some("1".to_string()), None], Some(77))
        .unwrap();
    assert_eq!(spec.name, "test-service");
    assert_eq!(spec.fingerprint, "all");
    assert_eq!(spec.published_at, Some(77));
    assert_eq!(spec.tags, vec!["stable"]);
    assert_eq!(spec.protobufs[0].package, "echo");
    assert_eq!(spec.protobufs[0].content, "one");
    assert_eq!(spec.protobufs[0].fingerprint, "1");
    assert_eq!(spec.protobufs[1].package, "README");
    assert_eq!(spec.protobufs[1].fingerprint, "error");
}

#[test]
fn a_service_without_a_fingerprint_has_no_spec() {
    let config = with_exports();
    assert!(config.service_spec_at(None, &vec![None, None], Some(1)).is_none());
    assert!(config.service_spec_at(Some("f".to_string()), &vec![None, None], None).is_none());
}

#[test]
fn a_service_spec_carries_the_present_time() {
    let now = std::time::SystemTime::now()
        .duration_since(std::time::UNIX_EPOCH)
        .unwrap()
        .as_secs() as i64;
    let spec = with_exports()
        .calculate_service_spec(Some("f".to_string()), &vec![None, None])
        .unwrap();
    let published_at = spec.published_at.unwrap();
    assert!(published_at >= now && published_at <= now + 5);
}

#[test]
fn defaults_of_peer_to_peer_settings() {
    let advanced = WebRtcAdvancedConfig::default();
    assert_eq!(advanced.udp_ports, None);
    assert!(advanced.public_ips.is_empty());
    assert_eq!(advanced.ice_host_acceptance_min_wait, 0);
    assert_eq!(advanced.ice_srflx_acceptance_min_wait, 20);
    assert_eq!(advanced.ice_prflx_acceptance_min_wait, 40);
    assert_eq!(advanced.ice_relay_acceptance_min_wait, 100);
    let config = WebRtcConfig::default();
    assert!(config.ice_servers.is_empty());
    assert!(matches!(config.ice_transport_policy, IceTransportPolicy::All));
    assert!(IceServer::default().urls.is_empty());
}

#[test]
fn fixed_ports_or_addresses_prefer_to_answer() {
    let mut advanced = WebRtcAdvancedConfig::default();
    assert!(!advanced.prefer_answerer());
    advanced.udp_ports = Some((50000, 50100));
    assert!(advanced.prefer_answerer());
    advanced.udp_ports = None;
    advanced.public_ips = vec!["1.2.3.4".to_string()];
    assert!(advanced.prefer_answerer());
}

#[test]
fn a_table_lists_names_as_they_were_first_entered() {
    let mut table: TextTable<u32> = TextTable::new();
    table.insert("b".to_string(), 1);
    table.insert("a".to_string(), 2);
    table.insert("b".to_string(), 3);
    assert_eq!(table.entries(), &vec![("b".to_string(), 3), ("a".to_string(), 2)]);
    let mut other: TextTable<u32> = TextTable::new();
    other.insert("c".to_string(), 4);
    other.insert("a".to_string(), 5);
    let copy = table.clone();
    table.extend(other);
    assert_eq!(
        table.entries(),
        &vec![("b".to_string(), 3), ("a".to_string(), 5), ("c".to_string(), 4)]
    );
    assert_eq!(copy.entries(), &vec![("b".to_string(), 3), ("a".to_string(), 2)]);
    assert_eq!(copy.get("c"), None);
}
