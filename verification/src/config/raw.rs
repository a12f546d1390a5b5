//! A configuration as it is written.
use crate::config::value::Value;
use crate::text_table::TextTable;
use vstd::prelude::*;

verus! {

/// A configuration file.
#[derive(Debug)]
pub struct RawConfig {
    /// The format that the file is written in.
    pub edition: u32,
    /// The file that this one builds on.
    pub inherit: Option<String>,
    /// The directory of the lock file, as seen from the configuration.
    pub config_dir: Option<String>,
    pub package: RawPackageConfig,
    /// Exported files, as seen from the configuration.
    pub exports: Vec<String>,
    /// Services that are depended on, by alias.
    pub dependencies: TextTable<RawDependency>,
    pub system: RawSystemConfig,
    /// Access rules.
    pub acl: Option<Value>,
    /// Commands by name.
    pub scripts: TextTable<String>,
}

/// What the package is.
#[derive(Debug, Clone)]
pub struct RawPackageConfig {
    pub name: String,
    pub actr_type: RawActrType,
    pub description: Option<String>,
    pub authors: Option<Vec<String>>,
    pub license: Option<String>,
    /// Labels of the service, such as "latest".
    pub tags: Vec<String>,
}

/// What the actor is.
#[derive(Debug, Clone)]
pub struct RawActrType {
    pub manufacturer: String,
    pub name: String,
    /// Empty where it is not given.
    pub version: String,
}

/// A service that is depended on.
#[derive(Debug, Clone)]
pub enum RawDependency {
    Specified {
        /// "manufacturer:name:version".
        actr_type: String,
        /// "ServiceName:fingerprint", where the fingerprint must match.
        service: Option<String>,
        /// The realm, where it is not the actor's own.
        realm: Option<u32>,
    },
    /// Nothing is said of it yet.
    Empty {  },
}

/// Settings of the runtime.
#[derive(Debug, Clone)]
pub struct RawSystemConfig {
    pub signaling: RawSignalingConfig,
    pub deployment: RawDeploymentConfig,
    pub discovery: RawDiscoveryConfig,
    pub storage: RawStorageConfig,
    pub webrtc: RawWebRtcConfig,
    pub websocket: RawWebSocketConfig,
    pub observability: RawObservabilityConfig,
}

/// Direct connections over web sockets.
#[derive(Debug, Clone)]
pub struct RawWebSocketConfig {
    /// The port to listen on.
    pub listen_port: Option<u16>,
    /// The host that peers are told.
    pub advertised_host: Option<String>,
}

/// The signaling server.
#[derive(Debug, Clone)]
pub struct RawSignalingConfig {
    pub url: Option<String>,
}

/// Where the actor belongs.
#[derive(Debug, Clone)]
pub struct RawDeploymentConfig {
    pub realm_id: Option<u32>,
}

/// Whether others find the actor.
#[derive(Debug, Clone)]
pub struct RawDiscoveryConfig {
    pub visible: Option<bool>,
}

/// Where messages are kept.
#[derive(Debug, Clone)]
pub struct RawStorageConfig {
    pub mailbox_path: Option<String>,
}

/// Peer-to-peer connections.
#[derive(Debug, Clone)]
pub struct RawWebRtcConfig {
    pub stun_urls: Vec<String>,
    pub turn_urls: Vec<String>,
    /// Whether all traffic goes through a relay.
    pub force_relay: bool,
    pub ice_host_acceptance_min_wait: Option<u64>,
    pub ice_srflx_acceptance_min_wait: Option<u64>,
    pub ice_prflx_acceptance_min_wait: Option<u64>,
    pub ice_relay_acceptance_min_wait: Option<u64>,
    /// The first port of a fixed range.
    pub port_range_start: Option<u16>,
    /// The last port of a fixed range.
    pub port_range_end: Option<u16>,
    /// Public addresses that the host's own stand behind.
    pub public_ips: Vec<String>,
}

/// Logging and tracing.
#[derive(Debug, Clone)]
pub struct RawObservabilityConfig {
    pub filter_level: Option<String>,
    pub tracing_enabled: Option<bool>,
    pub tracing_endpoint: Option<String>,
    pub tracing_service_name: Option<String>,
}

/// The format of a file that does not name one.
pub fn default_edition() -> (e: u32)
    ensures
        e == 1,
{
    1
}

impl Default for RawWebSocketConfig {
    fn default() -> (c: Self)
        ensures
            c == (RawWebSocketConfig { listen_port: None, advertised_host: None }),
    {
        RawWebSocketConfig { listen_port: None, advertised_host: None }
    }
}

impl Default for RawSignalingConfig {
    fn default() -> (c: Self)
        ensures
            c.url is None,
    {
        RawSignalingConfig { url: None }
    }
}

impl Default for RawDeploymentConfig {
    fn default() -> (c: Self)
        ensures
            c.realm_id is None,
    {
        RawDeploymentConfig { realm_id: None }
    }
}

impl Default for RawDiscoveryConfig {
    fn default() -> (c: Self)
        ensures
            c.visible is None,
    {
        RawDiscoveryConfig { visible: None }
    }
}

impl Default for RawStorageConfig {
    fn default() -> (c: Self)
        ensures
            c.mailbox_path is None,
    {
        RawStorageConfig { mailbox_path: None }
    }
}

/// Nothing is set.
pub open spec fn is_plain_webrtc(c: RawWebRtcConfig) -> bool {
    &&& c.stun_urls@ == Seq::<String>::empty()
    &&& c.turn_urls@ == Seq::<String>::empty()
    &&& !c.force_relay
    &&& c.ice_host_acceptance_min_wait is None
    &&& c.ice_srflx_acceptance_min_wait is None
    &&& c.ice_prflx_acceptance_min_wait is None
    &&& c.ice_relay_acceptance_min_wait is None
    &&& c.port_range_start is None
    &&& c.port_range_end is None
    &&& c.public_ips@ == Seq::<String>::empty()
}

impl Default for RawWebRtcConfig {
    fn default() -> (c: Self)
        ensures
            is_plain_webrtc(c),
    {
        RawWebRtcConfig {
            stun_urls: Vec::new(),
            turn_urls: Vec::new(),
            force_relay: false,
            ice_host_acceptance_min_wait: None,
            ice_srflx_acceptance_min_wait: None,
            ice_prflx_acceptance_min_wait: None,
            ice_relay_acceptance_min_wait: None,
            port_range_start: None,
            port_range_end: None,
            public_ips: Vec::new(),
        }
    }
}

impl Default for RawObservabilityConfig {
    fn default() -> (c: Self)
        ensures
            c == (RawObservabilityConfig {
                filter_level: None,
                tracing_enabled: None,
                tracing_endpoint: None,
                tracing_service_name: None,
            }),
    {
        RawObservabilityConfig {
            filter_level: None,
            tracing_enabled: None,
            tracing_endpoint: None,
            tracing_service_name: None,
        }
    }
}

impl Default for RawSystemConfig {
    fn default() -> (c: Self)
        ensures
            c.signaling.url is None,
            c.deployment.realm_id is None,
            c.discovery.visible is None,
            c.storage.mailbox_path is None,
            is_plain_webrtc(c.webrtc),
            c.websocket == (RawWebSocketConfig { listen_port: None, advertised_host: None }),
            c.observability == (RawObservabilityConfig {
                filter_level: None,
                tracing_enabled: None,
                tracing_endpoint: None,
                tracing_service_name: None,
            }),
    {
        RawSystemConfig {
            signaling: RawSignalingConfig::default(),
            deployment: RawDeploymentConfig::default(),
            discovery: RawDiscoveryConfig::default(),
            storage: RawStorageConfig::default(),
            webrtc: RawWebRtcConfig::default(),
            websocket: RawWebSocketConfig::default(),
            observability: RawObservabilityConfig::default(),
        }
    }
}

/// What is not written is not set: nothing of the runtime has a value of its own, and the first
/// format is meant.
pub proof fn what_is_not_written_is_not_set(c: RawSystemConfig, e: u32)
    requires
        call_ensures(<RawSystemConfig as Default>::default, (), c),
        call_ensures(default_edition, (), e),
    ensures
        e == 1,
        c.signaling.url is None,
        c.deployment.realm_id is None,
        c.discovery.visible is None,
        c.storage.mailbox_path is None,
        c.webrtc.stun_urls@.len() == 0,
        c.webrtc.turn_urls@.len() == 0,
        c.webrtc.public_ips@.len() == 0,
        !c.webrtc.force_relay,
        c.webrtc.ice_host_acceptance_min_wait is None,
        c.webrtc.ice_srflx_acceptance_min_wait is None,
        c.webrtc.ice_prflx_acceptance_min_wait is None,
        c.webrtc.ice_relay_acceptance_min_wait is None,
        c.webrtc.port_range_start is None,
        c.webrtc.port_range_end is None,
        c.websocket.listen_port is None,
        c.websocket.advertised_host is None,
        c.observability.filter_level is None,
        c.observability.tracing_enabled is None,
        c.observability.tracing_endpoint is None,
        c.observability.tracing_service_name is None,
{
}

/// A section that is not written is the same as in a configuration where no section is.
pub proof fn a_section_that_is_not_written_is_bare(
    c: RawSystemConfig,
    signaling: RawSignalingConfig,
    deployment: RawDeploymentConfig,
    discovery: RawDiscoveryConfig,
    storage: RawStorageConfig,
    webrtc: RawWebRtcConfig,
    websocket: RawWebSocketConfig,
    observability: RawObservabilityConfig,
)
    requires
        call_ensures(<RawSystemConfig as Default>::default, (), c),
        call_ensures(<RawSignalingConfig as Default>::default, (), signaling),
        call_ensures(<RawDeploymentConfig as Default>::default, (), deployment),
        call_ensures(<RawDiscoveryConfig as Default>::default, (), discovery),
        call_ensures(<RawStorageConfig as Default>::default, (), storage),
        call_ensures(<RawWebRtcConfig as Default>::default, (), webrtc),
        call_ensures(<RawWebSocketConfig as Default>::default, (), websocket),
        call_ensures(<RawObservabilityConfig as Default>::default, (), observability),
    ensures
        signaling == c.signaling,
        deployment == c.deployment,
        discovery == c.discovery,
        storage == c.storage,
        websocket == c.websocket,
        observability == c.observability,
        webrtc.stun_urls@ == c.webrtc.stun_urls@,
        webrtc.turn_urls@ == c.webrtc.turn_urls@,
        webrtc.public_ips@ == c.webrtc.public_ips@,
        webrtc == (RawWebRtcConfig {
            stun_urls: webrtc.stun_urls,
            turn_urls: webrtc.turn_urls,
            public_ips: webrtc.public_ips,
            ..c.webrtc
        }),
{
}

}
