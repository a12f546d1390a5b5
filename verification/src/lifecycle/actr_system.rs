//! The actor system: what is set up before a workload is attached.
use crate::config::config::Config;
use crate::lifecycle::network_event::{DebounceConfig, DEFAULT_WINDOW_NANOS};
use crate::path;
use crate::protocol::{AIdCredential, ActorResult, ActrError, ActrId, ActrIdView};
use crate::text::{join, same};
use crate::transport::address_book::AddressBook;
use crate::wire::webrtc::signaling::{ReconnectConfig, SignalingConfig, WebSocketSignalingClient};
use vstd::prelude::*;

verus! {

/// The path under which the stores keep everything in memory.
pub const IN_MEMORY: &'static str = ":memory:";

/// The file that pins the fingerprints of dependencies.
pub const LOCK_FILE: &'static str = "Actr.lock.toml";

/// How many network events, or results, wait at most.
pub const EVENT_CHANNEL_CAPACITY: usize = 100;

/// The time that one attempt to connect to the signaling server may take, in seconds.
pub const CONNECTION_TIMEOUT_SECS: u64 = 30;

/// The pause between two signs of life, in seconds.
pub const HEARTBEAT_INTERVAL_SECS: u64 = 30;

/// Where messages, and those that could not be delivered, are stored.
#[derive(Debug)]
pub struct StoragePaths {
    pub mailbox: String,
    pub dead_letters: String,
}

/// The file that messages are stored in, or memory.
pub open spec fn mailbox_file(path: Option<String>) -> Seq<char> {
    match path {
        Some(p) => p@,
        None => IN_MEMORY@,
    }
}

/// The file beside it for messages that could not be delivered. What is in memory stays
/// there.
pub open spec fn dead_letter_file(mailbox: Seq<char>) -> Seq<char> {
    if mailbox == IN_MEMORY@ {
        IN_MEMORY@
    } else {
        mailbox + ".dlq"@
    }
}

/// Where a system with this configuration stores its messages.
pub fn storage_paths(config: &Config) -> (p: StoragePaths)
    ensures
        p.mailbox@ == mailbox_file(config.mailbox_path),
        p.dead_letters@ == dead_letter_file(p.mailbox@),
{
    let mailbox = match &config.mailbox_path {
        Some(p) => p.clone(),
        None => IN_MEMORY.to_owned(),
    };
    let dead_letters = if same(mailbox.as_str(), IN_MEMORY) {
        IN_MEMORY.to_owned()
    } else {
        join(mailbox.as_str(), ".dlq")
    };
    StoragePaths { mailbox, dead_letters }
}

/// What came of opening the stores, first the one for messages and, if that is open, the
/// one for messages that could not be delivered.
#[derive(Debug)]
pub enum StorageOutcome {
    Open,
    MailboxFailed(String),
    DeadLettersFailed(String),
}

/// These are the signaling settings for a configuration. A node that peers reach under fixed
/// ports or addresses prefers to answer.
pub open spec fn is_signaling_config(config: Config, c: SignalingConfig) -> bool {
    &&& c.server_url == config.signaling_url
    &&& c.connection_timeout == CONNECTION_TIMEOUT_SECS
    &&& c.heartbeat_interval == HEARTBEAT_INTERVAL_SECS
    &&& c.reconnect_config == (ReconnectConfig {
        enabled: true,
        max_attempts: 10,
        initial_delay: 1,
        max_delay: 60,
        backoff_multiplier_percent: 200,
    })
    &&& c.auth_config is None
    &&& match c.webrtc_role {
        Some(role) => config.webrtc.advanced.answers() && role@ == "answer"@,
        None => !config.webrtc.advanced.answers(),
    }
}

/// The signaling settings for a configuration.
pub fn signaling_config(config: &Config) -> (c: SignalingConfig)
    ensures
        is_signaling_config(*config, c),
{
    let webrtc_role = if config.webrtc.advanced.prefer_answerer() {
        Some("answer".to_owned())
    } else {
        None
    };
    SignalingConfig {
        server_url: config.signaling_url.clone(),
        connection_timeout: CONNECTION_TIMEOUT_SECS,
        heartbeat_interval: HEARTBEAT_INTERVAL_SECS,
        reconnect_config: ReconnectConfig::default(),
        auth_config: None,
        webrtc_role,
    }
}

/// How the network events of a system are handled. Without a setting of its own, repeated
/// events are held back for the usual time.
#[derive(Debug, Clone, Copy, PartialEq, Eq, Structural)]
pub struct NetworkEvents {
    pub debounce: Option<DebounceConfig>,
}

impl NetworkEvents {
    /// How repeated events are held back: as was set, or for the usual time.
    pub fn debounce_config(&self) -> (c: DebounceConfig)
        ensures
            c == match self.debounce {
                Some(c) => c,
                None => DebounceConfig { window_nanos: DEFAULT_WINDOW_NANOS },
            },
    {
        match self.debounce {
            Some(c) => c,
            None => DebounceConfig::default(),
        }
    }
}

/// A system that no workload is attached to.
pub struct ActrSystem {
    pub config: Config,
    pub signaling_client: WebSocketSignalingClient,
    /// Whether and how network events are handled.
    pub network_events: Option<NetworkEvents>,
}

/// A system with its workload, before it is started.
pub struct ActrNode<W, L> {
    pub config: Config,
    pub workload: W,
    pub signaling_client: WebSocketSignalingClient,
    /// Who the actor is, once it is registered.
    pub actor_id: Option<ActrId>,
    /// What it proves that by, once it is registered.
    pub credential: Option<AIdCredential>,
    /// The fingerprints of its dependencies, where they are pinned.
    pub actr_lock: Option<L>,
    pub network_events: Option<NetworkEvents>,
    /// Where other actors can be reached directly.
    pub discovered_ws_addresses: AddressBook,
}

/// A time in milliseconds, in nanoseconds.
pub open spec fn nanos(millis: u64) -> u128 {
    (millis * 1_000_000) as u128
}

/// How repeated events are held back for a window in milliseconds. Zero is no setting.
pub open spec fn debounce_of(debounce_ms: u64) -> Option<DebounceConfig> {
    if debounce_ms > 0 {
        Some(DebounceConfig { window_nanos: nanos(debounce_ms) })
    } else {
        None
    }
}

impl ActrSystem {
    /// Sets a system up, once its stores are open. The client of the signaling server is not
    /// connected; it reconnects by itself.
    pub fn new(config: Config, storage: StorageOutcome) -> (r: ActorResult<Self>)
        ensures
            match storage {
                StorageOutcome::MailboxFailed(e) => r matches Err(ActrError::Unavailable(m)) && m@
                    == "Mailbox init failed: "@ + e@,
                StorageOutcome::DeadLettersFailed(e) => r matches Err(ActrError::Unavailable(m))
                    && m@ == "DLQ init failed: "@ + e@,
                StorageOutcome::Open => {
                    &&& r matches Ok(s)
                    &&& s.config == config
                    &&& is_signaling_config(config, s.signaling_client.config)
                    &&& s.signaling_client.is_idle()
                    &&& s.signaling_client.reconnector_started
                    &&& s.network_events is None
                },
            },
    {
        match storage {
            StorageOutcome::MailboxFailed(e) => Err(
                ActrError::Unavailable(join("Mailbox init failed: ", e.as_str())),
            ),
            StorageOutcome::DeadLettersFailed(e) => Err(
                ActrError::Unavailable(join("DLQ init failed: ", e.as_str())),
            ),
            StorageOutcome::Open => {
                let mut client = WebSocketSignalingClient::new(signaling_config(&config));
                client.start_reconnect_manager();
                Ok(ActrSystem { config, signaling_client: client, network_events: None })
            },
        }
    }

    /// Whether network events are handled already.
    pub fn has_network_events(&self) -> (r: bool)
        ensures
            r == self.network_events is Some,
    {
        self.network_events.is_some()
    }

    /// Lets network events be handled, repeated ones held back for a time in milliseconds.
    /// This is done once at most.
    pub fn create_network_event_handle(&mut self, debounce_ms: u64)
        requires
            old(self).network_events is None,
        ensures
            *final(self) == (ActrSystem {
                network_events: Some(NetworkEvents { debounce: debounce_of(debounce_ms) }),
                ..*old(self)
            }),
    {
        let debounce = if debounce_ms > 0 {
            Some(DebounceConfig { window_nanos: debounce_ms as u128 * 1_000_000 })
        } else {
            None
        };
        self.network_events = Some(NetworkEvents { debounce });
    }

    /// Where the fingerprints of dependencies are pinned.
    pub fn lock_path(&self) -> (r: String)
        ensures
            path::seen_from(self.config.config_dir@, LOCK_FILE@, r@),
    {
        path::seen(self.config.config_dir.as_str(), LOCK_FILE)
    }

    /// Attaches the workload. If the fingerprints could not be loaded, the system does
    /// without.
    pub fn attach<W, L>(self, workload: W, lock: Result<L, String>) -> (n: ActrNode<W, L>)
        ensures
            n.config == self.config,
            n.workload == workload,
            n.signaling_client == self.signaling_client,
            n.actor_id is None,
            n.credential is None,
            n.actr_lock == match lock {
                Ok(l) => Some(l),
                Err(_) => None,
            },
            n.network_events == self.network_events,
            n.discovered_ws_addresses@ == Map::<ActrIdView, Seq<char>>::empty(),
    {
        let actr_lock = match lock {
            Ok(l) => Some(l),
            Err(_) => None,
        };
        ActrNode {
            config: self.config,
            workload,
            signaling_client: self.signaling_client,
            actor_id: None,
            credential: None,
            actr_lock,
            network_events: self.network_events,
            discovered_ws_addresses: AddressBook::new(),
        }
    }
}

// ── Laws ──────────────────────────────────────────────────────────────────────

/// Messages that could not be delivered are never stored in the file of the others.
pub proof fn dead_letters_lie_apart(path: Option<String>)
    ensures
        mailbox_file(path) != IN_MEMORY@ ==> dead_letter_file(mailbox_file(path)) != mailbox_file(
            path,
        ),
        mailbox_file(path) == IN_MEMORY@ ==> dead_letter_file(mailbox_file(path)) == IN_MEMORY@,
{
    reveal_strlit(".dlq");
    let m = mailbox_file(path);
    assert((m + ".dlq"@).len() == m.len() + 4);
}

/// Messages are stored in the file that is configured, or in memory; those that could not be
/// delivered beside them, in a file named after it, or in memory too.
pub proof fn messages_are_stored_where_they_are_configured(config: Config, p: StoragePaths)
    requires
        call_ensures(storage_paths, (&config,), p),
    ensures
        config.mailbox_path is None ==> p.mailbox@ == ":memory:"@ && p.dead_letters@
            == ":memory:"@,
        config.mailbox_path matches Some(f) ==> p.mailbox@ == f@ && (f@ != ":memory:"@
            ==> p.dead_letters@ == f@ + ".dlq"@),
        p.mailbox@ == ":memory:"@ <==> p.dead_letters@ == ":memory:"@,
{
    reveal_strlit(".dlq");
    reveal_strlit(":memory:");
    if let Some(f) = config.mailbox_path {
        if f@ != ":memory:"@ {
            let d = f@ + ".dlq"@;
            assert(d.last() == 'q');
            assert(":memory:"@.last() == ':');
        }
    }
}

/// A client connects to the configured server, for thirty seconds an attempt, reconnects by
/// itself, and prefers to answer exactly if the node can be reached under fixed ports or
/// addresses.
pub proof fn a_client_is_set_up_as_configured(
    config: Config,
    c: SignalingConfig,
    answers: bool,
    usual: ReconnectConfig,
)
    requires
        call_ensures(signaling_config, (&config,), c),
        call_ensures(
            crate::config::config::WebRtcAdvancedConfig::prefer_answerer,
            (&config.webrtc.advanced,),
            answers,
        ),
        call_ensures(<ReconnectConfig as Default>::default, (), usual),
    ensures
        c.server_url == config.signaling_url,
        c.webrtc_role is Some <==> answers,
        c.webrtc_role matches Some(role) ==> role@ == "answer"@,
        c.connection_timeout == 30,
        c.heartbeat_interval == 30,
        c.reconnect_config == usual,
        c.reconnect_config.enabled,
        c.auth_config is None,
{
}

/// A system is set up exactly if its stores are open, and otherwise says which is not and why.
/// Its client is nobody yet and not connected, its reconnecting has begun, and network events
/// are not handled.
pub proof fn a_system_needs_its_stores(
    config: Config,
    storage: StorageOutcome,
    r: ActorResult<ActrSystem>,
    settings: SignalingConfig,
)
    requires
        call_ensures(ActrSystem::new, (config, storage), r),
        call_ensures(signaling_config, (&config,), settings),
    ensures
        r is Ok <==> storage is Open,
        r matches Ok(s) ==> {
            let client = s.signaling_client;
            &&& s.config == config
            &&& s.network_events is None
            &&& client.config.server_url == settings.server_url
            &&& client.config.webrtc_role is Some <==> settings.webrtc_role is Some
            &&& client.config.reconnect_config == settings.reconnect_config
            &&& client.config.connection_timeout == settings.connection_timeout
            &&& client.reconnector_started
            &&& !client.connected && !client.connecting && !client.has_sink && !client.has_stream
            &&& client.actor_id is None && client.credential is None
            &&& client.envelope_counter == 0 && client.stats.connections == 0
                && client.stats.disconnections == 0 && client.stats.errors == 0
        },
        storage matches StorageOutcome::MailboxFailed(why) ==> (r matches Err(
            ActrError::Unavailable(m),
        ) && m@ == "Mailbox init failed: "@ + why@),
        storage matches StorageOutcome::DeadLettersFailed(why) ==> (r matches Err(
            ActrError::Unavailable(m),
        ) && m@ == "DLQ init failed: "@ + why@),
{
}

/// Network events are handled once that is asked for. Repeated ones are held back for the time
/// that was given, or for the usual two seconds where none was.
pub proof fn network_events_are_held_back_as_asked(
    s: &mut ActrSystem,
    debounce_ms: u64,
    before: bool,
    after: bool,
    window: DebounceConfig,
)
    requires
        old(s).network_events is None,
        call_ensures(ActrSystem::has_network_events, (&*old(s),), before),
        call_ensures(ActrSystem::create_network_event_handle, (s, debounce_ms), ()),
        call_ensures(ActrSystem::has_network_events, (&*final(s),), after),
        final(s).network_events matches Some(events) ==> call_ensures(
            NetworkEvents::debounce_config,
            (&events,),
            window,
        ),
    ensures
        !before && after,
        final(s).config == old(s).config,
        final(s).signaling_client == old(s).signaling_client,
        window.window_nanos == if debounce_ms > 0 {
            debounce_ms * 1_000_000
        } else {
            2_000_000_000
        },
{
}

/// A workload is attached to the system as it is. Without pinned fingerprints the system does
/// without. Nobody is registered yet, and no other actor is known.
pub proof fn a_workload_is_attached_to_the_system<W, L>(
    s: ActrSystem,
    workload: W,
    lock: Result<L, String>,
    n: ActrNode<W, L>,
    id: ActrId,
    found: Option<String>,
)
    requires
        call_ensures(ActrSystem::attach::<W, L>, (s, workload, lock), n),
        call_ensures(AddressBook::get, (&n.discovered_ws_addresses, &id), found),
    ensures
        n.workload == workload,
        n.config == s.config,
        n.signaling_client == s.signaling_client,
        n.network_events == s.network_events,
        n.actr_lock is Some <==> lock is Ok,
        lock is Ok ==> n.actr_lock == Some(lock->Ok_0),
        n.actor_id is None && n.credential is None,
        found is None,
{
}

/// The lock file lies in the configuration's directory.
pub proof fn the_lock_file_lies_with_the_configuration(s: ActrSystem, r: String)
    requires
        call_ensures(ActrSystem::lock_path, (&s,), r),
        path::is_portable(s.config.config_dir@),
    ensures
        s.config.config_dir@.len() == 0 ==> r@ == "Actr.lock.toml"@,
        s.config.config_dir@.len() > 0 ==> s.config.config_dir@.is_prefix_of(r@) && r@.skip(
            r@.len() - 14,
        ) == "Actr.lock.toml"@,
{
    reveal_strlit("Actr.lock.toml");
    assert(path::is_portable(LOCK_FILE@));
    if s.config.config_dir@.len() > 0 {
        assert(r@.skip(r@.len() - 14) =~= "Actr.lock.toml"@);
    }
}

}
