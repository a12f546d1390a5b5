use actr::config::config::{Config, IceTransportPolicy, Permission, SourceRealm};
use actr::config::error::{ConfigError, ConfigResult};
use actr::config::inheritance::{merge_inheritance, merge_system_config, Inheritance};
use actr::config::parser::{read_permission, ExportRead, NameVerdicts, ParserV1};
use actr::config::raw::{
    default_edition, RawActrType, RawConfig, RawDependency, RawPackageConfig, RawSystemConfig,
    RawWebRtcConfig,
};
use actr::config::value::Value;
use actr::path::seen;
use actr::text_table::TextTable;

fn raw(name: &str, manufacturer: &str, actor_type: &str) -> RawConfig {
    let mut system = RawSystemConfig::default();
    system.signaling.url = Some("ws://localhost:8081".to_string());
    system.deployment.realm_id = Some(1001);
    RawConfig {
        edition: 1,
        inherit: None,
        config_dir: None,
        package: RawPackageConfig {
            name: name.to_string(),
            actr_type: RawActrType {
                manufacturer: manufacturer.to_string(),
                name: actor_type.to_string(),
                version: String::new(),
            },
            description: None,
            authors: None,
            license: None,
            tags: vec![],
        },
        exports: vec![],
        dependencies: TextTable::new(),
        system,
        acl: None,
        scripts: TextTable::new(),
    }
}

/// A name is letters, digits and hyphens, begins with a letter and does not end in a hyphen.
fn judge(name: &str) -> Option<String> {
    let begins = name.chars().next().is_some_and(|c| c.is_ascii_alphabetic());
    let inner = name.chars().all(|c| c.is_ascii_alphanumeric() || c == '-' || c == '_');
    if begins && inner && !name.ends_with('-') {
        None
    } else {
        Some("bad name".to_string())
    }
}

/// Parses, judging each name that is asked for.
fn parse_judging(make: impl Fn() -> RawConfig, reads: Vec<(&str, &str)>) -> ConfigResult<Config> {
    let parser = ParserV1::new("dir/actr.toml");
    let mut names = NameVerdicts::new();
    loop {
        let raw = make();
        let paths = parser.export_paths(&raw.exports);
        let reads = paths
            .into_iter()
            .zip(reads.iter())
            .map(|(path, (_, content))| ExportRead { path, content: Ok(content.to_string()) })
            .collect();
        match parser.parse(raw, reads, &names) {
            Err(ConfigError::NameNotChecked(name)) => {
                assert!(names.get(&name).is_none(), "asked twice for {name}");
                let verdict = judge(&name);
                names.insert(name, verdict);
            }
            result => return result,
        }
    }
}

#[test]
fn v1_test_parse_basic_config() {
    let make = || {
        let mut raw = raw("test-service", "acme", "test-service");
        raw.exports = vec!["proto/test.proto".to_string()];
        raw.dependencies.insert("user-service".to_string(), RawDependency::Empty {});
        raw.scripts.insert("run".to_string(), "cargo run".to_string());
        raw
    };
    let config =
        parse_judging(make, vec![("proto/test.proto", "syntax = \"proto3\";")]).unwrap();
    assert_eq!(config.package.name, "test-service");
    assert_eq!(config.realm.realm_id, 1001);
    assert_eq!(config.dependencies.len(), 1);
    assert_eq!(config.exports.len(), 1);
    assert_eq!(config.exports[0].path, "dir/proto/test.proto");
    assert_eq!(config.exports[0].content, "syntax = \"proto3\";");
    assert_eq!(config.signaling_url, "ws://localhost:8081/");
    assert_eq!(config.config_dir, "dir");
    assert!(config.visible_in_discovery);
    assert_eq!(config.get_script("run"), Some("cargo run"));
    assert_eq!(config.dependencies[0].realm.realm_id, 1001);
    assert!(config.dependencies[0].actr_type.is_none());
}

#[test]
fn test_parse_cross_realm_dependency() {
    let make = || {
        let mut raw = raw("test", "acme", "test");
        raw.package.actr_type.version = "1.0.0".to_string();
        raw.dependencies.insert(
            "shared".to_string(),
            RawDependency::Specified {
                actr_type: "acme:logging-service:1.0.0".to_string(),
                service: Some("LoggingService:abc123".to_string()),
                realm: Some(9999),
            },
        );
        raw
    };
    let config = parse_judging(make, vec![]).unwrap();
    let dep = config.get_dependency("shared").unwrap();
    assert_eq!(dep.alias, "shared");
    assert_eq!(dep.realm.realm_id, 9999);
    assert_eq!(dep.actr_type.as_ref().unwrap().name, "logging-service");
    assert_eq!(dep.service.as_ref().unwrap().name, "LoggingService");
    assert_eq!(dep.service.as_ref().unwrap().fingerprint, "abc123");
    assert!(dep.is_cross_realm(&config.realm));
}

#[test]
fn test_validate_actr_type_name() {
    let result = parse_judging(|| raw("test", "1acme", "test"), vec![]);
    match result.unwrap_err() {
        ConfigError::InvalidActrType(m) => {
            assert_eq!(m, "Invalid manufacturer name '1acme': bad name");
        }
        other => panic!("unexpected {other:?}"),
    }
}

#[test]
fn test_validate_actr_type_name_invalid() {
    let result = parse_judging(|| raw("test", "acme", "test-"), vec![]);
    match result.unwrap_err() {
        ConfigError::InvalidActrType(m) => {
            assert_eq!(m, "Invalid actor type name 'test-': bad name");
        }
        other => panic!("unexpected {other:?}"),
    }
}

#[test]
fn test_invalid_port_range() {
    let make = || {
        let mut raw = raw("test", "acme", "test");
        raw.system.webrtc.port_range_start = Some(50100);
        raw.system.webrtc.port_range_end = Some(50000);
        raw
    };
    match parse_judging(make, vec![]).unwrap_err() {
        ConfigError::InvalidConfig(m) => {
            assert_eq!(m, "Invalid port range: start (50100) must be less than end (50000)");
        }
        other => panic!("unexpected {other:?}"),
    }
}

#[test]
fn signaling_server_and_realm_must_be_set() {
    let without_url = || {
        let mut raw = raw("test", "acme", "test");
        raw.system.signaling.url = None;
        raw.system.deployment.realm_id = None;
        raw
    };
    assert!(matches!(
        parse_judging(without_url, vec![]),
        Err(ConfigError::MissingField("system.signaling.url"))
    ));
    let without_realm = || {
        let mut raw = raw("test", "acme", "test");
        raw.system.deployment.realm_id = None;
        raw
    };
    assert!(matches!(
        parse_judging(without_realm, vec![]),
        Err(ConfigError::MissingField("system.deployment.realm"))
    ));
}

#[test]
fn a_url_must_be_one() {
    let make = || {
        let mut raw = raw("test", "acme", "test");
        raw.system.signaling.url = Some("no url".to_string());
        raw
    };
    match parse_judging(make, vec![]).unwrap_err() {
        ConfigError::InvalidUrl(m) => assert_eq!(m, "relative URL without a base"),
        other => panic!("unexpected {other:?}"),
    }
}

#[test]
fn a_file_that_cannot_be_read_is_named() {
    let parser = ParserV1::new("dir/actr.toml");
    let reads = vec![
        ExportRead { path: "dir/a".to_string(), content: Ok("x".to_string()) },
        ExportRead { path: "dir/b".to_string(), content: Err("no such file".to_string()) },
    ];
    match parser.parse_exports(reads).unwrap_err() {
        ConfigError::ProtoFileNotFound(path, why) => {
            assert_eq!(path, "dir/b");
            assert_eq!(why, "no such file");
        }
        other => panic!("unexpected {other:?}"),
    }
}

#[test]
fn a_parser_knows_the_directory_of_its_file() {
    assert_eq!(ParserV1::new("a/b/actr.toml").base_dir, "a/b");
    assert_eq!(ParserV1::new("actr.toml").base_dir, "");
    assert_eq!(ParserV1::new("/actr.toml").base_dir, "/");
    assert_eq!(ParserV1::new("/").base_dir, ".");
    assert_eq!(ParserV1::new("").base_dir, ".");
    assert_eq!(ParserV1::new("a//b/./actr.toml").base_dir, "a//b");
    assert_eq!(ParserV1::new("a/b/actr.toml/").base_dir, "a/b");
    assert_eq!(ParserV1::new("./actr.toml").base_dir, ".");
    assert_eq!(ParserV1::new("a/.").base_dir, "");
    assert_eq!(ParserV1::new("/.").base_dir, ".");
    assert_eq!(ParserV1::new("..").base_dir, "");
    assert_eq!(ParserV1::new("a/actr.toml").resolve("x/y"), "a/x/y");
    assert_eq!(ParserV1::new("a/actr.toml").resolve("/x"), "/x");
}

#[test]
fn a_bare_file_name_leaves_paths_as_written() {
    let parser = ParserV1::new("actr.toml");
    for path in ["proto/a.proto", "/x", "", "a//b", "..\\x"] {
        assert_eq!(parser.resolve(path), path);
    }
    assert_eq!(seen("", "Actr.lock.toml"), "Actr.lock.toml");
    assert_eq!(seen("conf/", "Actr.lock.toml"), "conf/Actr.lock.toml");
    assert_eq!(seen("conf", "/Actr.lock.toml"), "/Actr.lock.toml");
}

// ── Types and services ────────────────────────────────────────────────────────

fn allowing(names: &[&str]) -> NameVerdicts {
    let mut table = NameVerdicts::new();
    for name in names {
        table.insert(name.to_string(), None);
    }
    table
}

#[test]
fn a_type_has_two_or_three_parts() {
    let parser = ParserV1::new("actr.toml");
    let names = allowing(&["acme", "echo"]);
    let t = parser.parse_actr_type("acme:echo:1.0.0", &names).unwrap();
    assert_eq!((t.manufacturer.as_str(), t.name.as_str(), t.version.as_str()), ("acme", "echo", "1.0.0"));
    let t = parser.parse_actr_type("acme:echo", &names).unwrap();
    assert_eq!(t.version, "");
    for wrong in ["acme", "acme:echo:1:2", ""] {
        match parser.parse_actr_type(wrong, &names) {
            Err(ConfigError::InvalidActrType(m)) => assert_eq!(
                m,
                format!("Invalid actor type '{wrong}': expected 'manufacturer:name:version'")
            ),
            other => panic!("unexpected {other:?}"),
        }
    }
}

#[test]
fn a_type_with_a_bad_name_is_refused() {
    let parser = ParserV1::new("actr.toml");
    let mut names = allowing(&["acme"]);
    names.insert("9".to_string(), Some("begins with a digit".to_string()));
    match parser.parse_actr_type("9:echo", &names) {
        Err(ConfigError::InvalidActrType(m)) => {
            assert_eq!(m, "Invalid manufacturer '9' in '9:echo': begins with a digit");
        }
        other => panic!("unexpected {other:?}"),
    }
    match parser.parse_actr_type("acme:9", &names) {
        Err(ConfigError::InvalidActrType(m)) => {
            assert_eq!(m, "Invalid type name '9' in 'acme:9': begins with a digit");
        }
        other => panic!("unexpected {other:?}"),
    }
    match parser.parse_actr_type("acme:echo", &names) {
        Err(ConfigError::NameNotChecked(name)) => assert_eq!(name, "echo"),
        other => panic!("unexpected {other:?}"),
    }
}

#[test]
fn a_service_has_a_fingerprint() {
    let parser = ParserV1::new("actr.toml");
    let service = parser.parse_service_ref("Echo:sha:1").unwrap();
    assert_eq!(service.name, "Echo");
    assert_eq!(service.fingerprint, "sha:1");
    match parser.parse_service_ref("Echo") {
        Err(ConfigError::InvalidActrType(m)) => assert_eq!(
            m,
            "Invalid service reference 'Echo': expected 'ServiceName:fingerprint'"
        ),
        other => panic!("unexpected {other:?}"),
    }
}

// ── Access rules ──────────────────────────────────────────────────────────────

fn text(s: &str) -> Value {
    Value::Text(s.to_string())
}

fn table(entries: Vec<(&str, Value)>) -> Value {
    Value::Table(entries.into_iter().map(|(k, v)| (k.to_string(), v)).collect())
}

fn rules(list: Vec<Value>) -> Value {
    table(vec![("rules", Value::Array(list))])
}

#[test]
fn rules_name_permission_type_and_realm() {
    let parser = ParserV1::new("actr.toml");
    let names = allowing(&["acme", "echo"]);
    let rule = |permission: &str, realm: Option<Value>| {
        let mut entries = vec![("permission", text(permission)), ("type", text("acme:echo"))];
        if let Some(realm) = realm {
            entries.push(("realm", realm));
        }
        table(entries)
    };
    let acl = parser
        .parse_acl(
            &rules(vec![
                rule("allow", None),
                rule("Deny", Some(text("self"))),
                rule("ALLOW", Some(text("*"))),
                rule("DENY", Some(Value::Integer(5))),
                rule("DENY", Some(Value::Integer(-1))),
            ]),
            1001,
            &names,
        )
        .unwrap();
    assert_eq!(acl.rules.len(), 5);
    assert_eq!(acl.rules[0].permission, Permission::Allow);
    assert_eq!(acl.rules[0].from_type.name, "echo");
    assert_eq!(acl.rules[0].source_realm, Some(SourceRealm::RealmId(1001)));
    assert_eq!(acl.rules[1].permission, Permission::Deny);
    assert_eq!(acl.rules[1].source_realm, Some(SourceRealm::RealmId(1001)));
    assert_eq!(acl.rules[2].source_realm, Some(SourceRealm::AnyRealm(true)));
    assert_eq!(acl.rules[3].source_realm, Some(SourceRealm::RealmId(5)));
    assert_eq!(acl.rules[4].source_realm, Some(SourceRealm::RealmId(u32::MAX)));
}

#[test]
fn rules_that_cannot_be_read_are_named() {
    let parser = ParserV1::new("actr.toml");
    let names = allowing(&["acme", "echo"]);
    let good = || table(vec![("permission", text("ALLOW")), ("type", text("acme:echo"))]);
    let cases = vec![
        (table(vec![]), "ACL must have 'rules' array"),
        (Value::Array(vec![]), "ACL must have 'rules' array"),
        (table(vec![("rules", text("x"))]), "ACL must have 'rules' array"),
        (rules(vec![good(), text("x")]), "ACL rule 1 must be a table"),
        (
            rules(vec![table(vec![("type", text("acme:echo"))])]),
            "ACL rule 0 missing 'permission' field",
        ),
        (
            rules(vec![table(vec![("permission", Value::Integer(1))])]),
            "ACL rule 0 missing 'permission' field",
        ),
        (
            rules(vec![table(vec![("permission", text("maybe"))])]),
            "ACL rule 0: invalid permission 'maybe', expected 'ALLOW' or 'DENY'",
        ),
        (
            rules(vec![table(vec![("permission", text("deny"))])]),
            "ACL rule 0 missing 'type' field",
        ),
        (
            rules(vec![table(vec![
                ("permission", text("deny")),
                ("type", text("acme:echo")),
                ("realm", text("all")),
            ])]),
            "ACL rule 0: invalid realm 'all', expected 'self', '*', or an integer",
        ),
        (
            rules(vec![table(vec![
                ("permission", text("deny")),
                ("type", text("acme:echo")),
                ("realm", Value::Other),
            ])]),
            "ACL rule 0: realm must be 'self', '*', or an integer",
        ),
    ];
    for (value, expected) in cases {
        match parser.parse_acl(&value, 1, &names) {
            Err(ConfigError::InvalidAcl(m)) => assert_eq!(m, expected),
            other => panic!("unexpected {other:?}"),
        }
    }
}

#[test]
fn a_permission_is_read_in_capitals() {
    assert_eq!(read_permission(3, "x", "ALLOW").unwrap(), Permission::Allow);
    assert_eq!(read_permission(3, "x", "DENY").unwrap(), Permission::Deny);
    assert!(read_permission(3, "allow", "allow").is_err());
}

// ── Peer-to-peer and logging settings ─────────────────────────────────────────

#[test]
fn peer_to_peer_settings_have_defaults() {
    let parser = ParserV1::new("actr.toml");
    let mut raw = RawWebRtcConfig::default();
    raw.public_ips = vec!["1.2.3.4".to_string()];
    let config = parser.parse_webrtc(raw).unwrap();
    assert!(config.ice_servers.is_empty());
    assert!(matches!(config.ice_transport_policy, IceTransportPolicy::All));
    assert_eq!(config.advanced.udp_ports, None);
    assert!(config.advanced.public_ips.is_empty(), "addresses need a port range");
    assert_eq!(config.advanced.ice_host_acceptance_min_wait, 0);
    assert_eq!(config.advanced.ice_srflx_acceptance_min_wait, 20);
    assert_eq!(config.advanced.ice_prflx_acceptance_min_wait, 40);
    assert_eq!(config.advanced.ice_relay_acceptance_min_wait, 100);
}

#[test]
fn peer_to_peer_settings_are_taken() {
    let parser = ParserV1::new("actr.toml");
    let mut raw = RawWebRtcConfig::default();
    raw.stun_urls = vec!["stun:a".to_string()];
    raw.turn_urls = vec!["turn:a".to_string(), "turn:b".to_string()];
    raw.force_relay = true;
    raw.port_range_start = Some(50000);
    raw.port_range_end = Some(50100);
    raw.public_ips = vec!["1.2.3.4".to_string()];
    raw.ice_host_acceptance_min_wait = Some(7);
    let config = parser.parse_webrtc(raw).unwrap();
    assert_eq!(config.ice_servers.len(), 2);
    assert_eq!(config.ice_servers[0].urls, vec!["stun:a"]);
    assert_eq!(config.ice_servers[1].urls, vec!["turn:a", "turn:b"]);
    assert!(config.ice_servers[1].username.is_none());
    assert!(matches!(config.ice_transport_policy, IceTransportPolicy::Relay));
    assert_eq!(config.advanced.udp_ports, Some((50000, 50100)));
    assert_eq!(config.advanced.public_ips, vec!["1.2.3.4"]);
    assert_eq!(config.advanced.ice_host_acceptance_min_wait, 7);
}

#[test]
fn a_port_range_has_a_beginning_and_an_end() {
    let parser = ParserV1::new("actr.toml");
    let mut raw = RawWebRtcConfig::default();
    raw.port_range_start = Some(50000);
    assert_eq!(parser.parse_webrtc(raw).unwrap().advanced.udp_ports, None);
    let mut raw = RawWebRtcConfig::default();
    raw.port_range_start = Some(50000);
    raw.port_range_end = Some(50000);
    assert!(parser.parse_webrtc(raw).is_err());
}

#[test]
fn logging_settings_have_defaults() {
    let config = parse_judging(|| raw("my-package", "acme", "test"), vec![]).unwrap();
    assert_eq!(config.observability.filter_level, "info");
    assert!(!config.observability.tracing_enabled);
    assert_eq!(config.observability.tracing_endpoint, "http://localhost:4317");
    assert_eq!(config.observability.tracing_service_name, "my-package");
}

// ── Building on other configurations ──────────────────────────────────────────

#[test]
fn a_child_comes_first() {
    let mut parent = RawSystemConfig::default();
    parent.signaling.url = Some("ws://parent".to_string());
    parent.deployment.realm_id = Some(1);
    parent.webrtc.stun_urls = vec!["stun:parent".to_string()];
    parent.webrtc.turn_urls = vec!["turn:parent".to_string()];
    parent.webrtc.force_relay = true;
    parent.observability.filter_level = Some("debug".to_string());
    let mut child = RawSystemConfig::default();
    child.signaling.url = Some("ws://child".to_string());
    child.webrtc.stun_urls = vec!["stun:child".to_string()];
    child.websocket.listen_port = Some(80);
    let merged = merge_system_config(parent, child);
    assert_eq!(merged.signaling.url.as_deref(), Some("ws://child"));
    assert_eq!(merged.deployment.realm_id, Some(1));
    assert_eq!(merged.webrtc.stun_urls, vec!["stun:child"]);
    assert_eq!(merged.webrtc.turn_urls, vec!["turn:parent"]);
    assert!(merged.webrtc.force_relay);
    assert_eq!(merged.observability.filter_level.as_deref(), Some("debug"));
    assert_eq!(merged.websocket.listen_port, Some(80));
}

#[test]
fn lists_are_joined_and_tables_overridden() {
    let mut parent = raw("parent", "acme", "parent");
    parent.exports = vec!["a.proto".to_string()];
    parent.scripts.insert("run".to_string(), "old".to_string());
    parent.scripts.insert("test".to_string(), "kept".to_string());
    parent.acl = Some(text("parent"));
    parent.config_dir = Some("elsewhere".to_string());
    let mut child = raw("child", "acme", "child");
    child.exports = vec!["b.proto".to_string()];
    child.scripts.insert("run".to_string(), "new".to_string());
    let merged = merge_inheritance(parent, child);
    assert_eq!(merged.package.name, "child");
    assert_eq!(merged.exports, vec!["a.proto", "b.proto"]);
    assert_eq!(merged.scripts.get("run").map(String::as_str), Some("new"));
    assert_eq!(merged.scripts.get("test").map(String::as_str), Some("kept"));
    assert!(matches!(merged.acl, Some(Value::Text(s)) if s == "parent"));
    assert_eq!(merged.config_dir, None);
}

#[test]
fn a_chain_is_loaded_and_merged() {
    let mut child = raw("child", "acme", "child");
    child.inherit = Some("parent.toml".to_string());
    child.system.signaling.url = None;
    child.system.deployment.realm_id = None;
    let mut parent = raw("parent", "acme", "parent");
    parent.inherit = Some("grandparent.toml".to_string());
    parent.system.signaling.url = None;
    parent.exports = vec!["p".to_string()];
    let mut grandparent = raw("grandparent", "acme", "grandparent");
    grandparent.system.deployment.realm_id = Some(5);
    grandparent.exports = vec!["g".to_string()];

    let mut chain = Inheritance::new(child);
    assert_eq!(chain.missing_parent().map(String::as_str), Some("parent.toml"));
    chain.parent_loaded(parent).unwrap();
    assert_eq!(chain.missing_parent().map(String::as_str), Some("grandparent.toml"));
    chain.parent_loaded(grandparent).unwrap();
    assert!(chain.missing_parent().is_none());
    let merged = chain.merged();
    assert_eq!(merged.package.name, "child");
    assert_eq!(merged.inherit, None);
    assert_eq!(merged.exports, vec!["g", "p"]);
    assert_eq!(merged.system.deployment.realm_id, Some(1001));
    assert_eq!(merged.system.signaling.url.as_deref(), Some("ws://localhost:8081"));
}

#[test]
fn a_parent_must_be_of_the_same_edition() {
    assert_eq!(default_edition(), 1);
    let mut chain = Inheritance::new(raw("child", "acme", "child"));
    let mut parent = raw("parent", "acme", "parent");
    parent.edition = 2;
    assert!(matches!(
        chain.parent_loaded(parent),
        Err(ConfigError::EditionMismatch { parent: 2, child: 1 })
    ));
}
