//! A configuration as it is used: complete, checked, with nothing left to look up.
use crate::clock::unix_secs;
use crate::path;
use crate::protocol::{ActrType, Realm};
use crate::text::same;
use crate::text_table::TextTable;
use vstd::prelude::*;

verus! {

/// A configuration.
#[derive(Debug, Clone)]
pub struct Config {
    pub package: PackageInfo,
    /// Exported files, with their contents.
    pub exports: Vec<ProtoFile>,
    pub dependencies: Vec<Dependency>,
    /// The serialised URL of the signaling server.
    pub signaling_url: String,
    pub realm: Realm,
    /// Whether others find the actor.
    pub visible_in_discovery: bool,
    pub acl: Option<Acl>,
    /// The file that messages are kept in; without one they are kept in memory.
    pub mailbox_path: Option<String>,
    /// Labels of the service.
    pub tags: Vec<String>,
    /// Commands by name.
    pub scripts: TextTable<String>,
    pub webrtc: WebRtcConfig,
    /// The port to listen on for direct connections.
    pub websocket_listen_port: Option<u16>,
    /// The host that peers are told.
    pub websocket_advertised_host: Option<String>,
    pub observability: ObservabilityConfig,
    /// The directory of the lock file.
    pub config_dir: String,
}

/// What the package is.
#[derive(Debug, Clone)]
pub struct PackageInfo {
    pub name: String,
    pub actr_type: ActrType,
    pub description: Option<String>,
    pub authors: Vec<String>,
    pub license: Option<String>,
}

/// An exported file.
#[derive(Debug, Clone)]
pub struct ProtoFile {
    pub path: String,
    pub content: String,
}

/// A service that is depended on.
#[derive(Debug, Clone)]
pub struct Dependency {
    pub alias: String,
    pub realm: Realm,
    /// What it is, once that is known.
    pub actr_type: Option<ActrType>,
    /// The service and fingerprint that must match, where they must.
    pub service: Option<ServiceRef>,
}

/// A service by name and fingerprint.
#[derive(Debug, Clone)]
pub struct ServiceRef {
    pub name: String,
    pub fingerprint: String,
}

/// Who may call.
#[derive(Debug, Clone)]
pub struct Acl {
    pub rules: Vec<AclRule>,
}

/// Whether callers of a type and realm may call.
#[derive(Debug, Clone)]
pub struct AclRule {
    pub permission: Permission,
    pub from_type: ActrType,
    pub source_realm: Option<SourceRealm>,
}

/// Whether a caller may call.
#[derive(Debug, Clone, Copy, PartialEq, Eq, Structural)]
pub enum Permission {
    Allow,
    Deny,
}

/// Where a caller comes from.
#[derive(Debug, Clone, Copy, PartialEq, Eq, Structural)]
pub enum SourceRealm {
    RealmId(u32),
    AnyRealm(bool),
}

/// Which routes a peer-to-peer connection may take.
#[derive(Debug, Clone, Copy, PartialEq, Eq, Structural)]
pub enum IceTransportPolicy {
    /// Any.
    All,
    /// Only those through a relay.
    Relay,
}

impl Default for IceTransportPolicy {
    fn default() -> (p: Self)
        ensures
            p is All,
    {
        IceTransportPolicy::All
    }
}

/// A server that helps to find routes.
#[derive(Debug, Clone)]
pub struct IceServer {
    pub urls: Vec<String>,
    pub username: Option<String>,
    pub credential: Option<String>,
}

impl Default for IceServer {
    fn default() -> (s: Self)
        ensures
            s.urls@ == Seq::<String>::empty(),
            s.username is None,
            s.credential is None,
    {
        IceServer { urls: Vec::new(), username: None, credential: None }
    }
}

/// Finer settings of peer-to-peer connections. Waits are in milliseconds.
#[derive(Debug, Clone)]
pub struct WebRtcAdvancedConfig {
    /// The first and last port of a fixed range.
    pub udp_ports: Option<(u16, u16)>,
    /// Public addresses that the host's own stand behind.
    pub public_ips: Vec<String>,
    pub ice_host_acceptance_min_wait: u64,
    pub ice_srflx_acceptance_min_wait: u64,
    pub ice_prflx_acceptance_min_wait: u64,
    pub ice_relay_acceptance_min_wait: u64,
}

impl WebRtcAdvancedConfig {
    /// A fixed port range or a public address is set.
    pub open spec fn answers(&self) -> bool {
        self.udp_ports is Some || self.public_ips@.len() > 0
    }

    /// Whether this node would rather answer than offer: where a fixed port range or a
    /// public address is set.
    pub fn prefer_answerer(&self) -> (r: bool)
        ensures
            r == self.answers(),
    {
        self.udp_ports.is_some() || self.public_ips.len() > 0
    }
}

/// The settings where nothing is said.
pub open spec fn is_default_advanced(c: WebRtcAdvancedConfig) -> bool {
    &&& c.udp_ports is None
    &&& c.public_ips@ == Seq::<String>::empty()
    &&& c.ice_host_acceptance_min_wait == 0
    &&& c.ice_srflx_acceptance_min_wait == 20
    &&& c.ice_prflx_acceptance_min_wait == 40
    &&& c.ice_relay_acceptance_min_wait == 100
}

impl Default for WebRtcAdvancedConfig {
    fn default() -> (c: Self)
        ensures
            is_default_advanced(c),
    {
        WebRtcAdvancedConfig {
            udp_ports: None,
            public_ips: Vec::new(),
            ice_host_acceptance_min_wait: 0,
            ice_srflx_acceptance_min_wait: 20,
            ice_prflx_acceptance_min_wait: 40,
            ice_relay_acceptance_min_wait: 100,
        }
    }
}

/// Peer-to-peer connections.
#[derive(Debug, Clone)]
pub struct WebRtcConfig {
    pub ice_servers: Vec<IceServer>,
    pub ice_transport_policy: IceTransportPolicy,
    pub advanced: WebRtcAdvancedConfig,
}

impl Default for WebRtcConfig {
    fn default() -> (c: Self)
        ensures
            c.ice_servers@ == Seq::<IceServer>::empty(),
            c.ice_transport_policy is All,
            is_default_advanced(c.advanced),
    {
        WebRtcConfig {
            ice_servers: Vec::new(),
            ice_transport_policy: IceTransportPolicy::default(),
            advanced: WebRtcAdvancedConfig::default(),
        }
    }
}

/// Logging and tracing.
#[derive(Debug, Clone)]
pub struct ObservabilityConfig {
    /// Which messages are logged, such as "info,webrtc=debug".
    pub filter_level: String,
    pub tracing_enabled: bool,
    pub tracing_endpoint: String,
    pub tracing_service_name: String,
}

/// A file as the fingerprint of a service is calculated from it.
#[derive(Debug, Clone)]
pub struct FingerprintInput {
    pub name: String,
    pub content: String,
    pub path: Option<String>,
}

/// A file of a published service.
#[derive(Debug, Clone)]
pub struct Protobuf {
    pub package: String,
    pub content: String,
    pub fingerprint: String,
}

/// A service as it is published.
#[derive(Debug, Clone)]
pub struct ServiceSpec {
    pub name: String,
    pub description: Option<String>,
    pub fingerprint: String,
    pub protobufs: Vec<Protobuf>,
    pub published_at: Option<i64>,
    pub tags: Vec<String>,
}

/// Other strings with the same characters.
fn copies(v: &Vec<String>) -> (r: Vec<String>)
    ensures
        r@ == v@,
{
    let r = v.clone();
    assert(r@ =~= v@);
    r
}

/// The first dependency at or after `from` with this alias, or the length if there is
/// none.
pub open spec fn alias_place(deps: Seq<Dependency>, alias: Seq<char>, from: int) -> int
    decreases deps.len() - from,
{
    if from >= deps.len() {
        deps.len() as int
    } else if deps[from].alias@ == alias {
        from
    } else {
        alias_place(deps, alias, from + 1)
    }
}

/// Those of the first `n` dependencies that lie in another realm.
pub open spec fn outside(deps: Seq<Dependency>, realm: Realm, n: int) -> Seq<Dependency>
    decreases n,
{
    if n <= 0 {
        Seq::empty()
    } else if deps[n - 1].realm.realm_id != realm.realm_id {
        outside(deps, realm, n - 1).push(deps[n - 1])
    } else {
        outside(deps, realm, n - 1)
    }
}

/// A fingerprint, or "error" where there is none.
pub open spec fn fingerprint_words(f: Option<String>) -> Seq<char> {
    match f {
        Some(f) => f@,
        None => "error"@,
    }
}

/// The name that a file is fingerprinted under: its own, where its path names something.
/// Nothing is said of paths that machines read differently.
pub open spec fn input_name(path: Seq<char>, name: Seq<char>) -> bool {
    path::is_portable(path) ==> name == match path::final_name(path) {
        Some(n) => n,
        None => "unknown.proto"@,
    }
}

/// The package that a file is published under: its name without the extension, where its
/// path names something. Nothing is said of paths that machines read differently.
pub open spec fn package_name(path: Seq<char>, name: Seq<char>) -> bool {
    path::is_portable(path) ==> name == match path::final_name(path) {
        Some(n) => path::name_stem(n),
        None => "unknown"@,
    }
}

/// The spec is that of the configuration's service, with these fingerprints, published at
/// this time.
pub open spec fn is_service_spec(
    c: Config,
    fingerprint: String,
    file_fingerprints: Seq<Option<String>>,
    published_at: i64,
    s: ServiceSpec,
) -> bool {
    &&& s.name == c.package.name
    &&& s.description == c.package.description
    &&& s.fingerprint == fingerprint
    &&& s.protobufs@.len() == c.exports@.len()
    &&& forall|i: int|
        0 <= i < c.exports@.len() ==> {
            let p = #[trigger] s.protobufs@[i];
            &&& package_name(c.exports@[i].path@, p.package@)
            &&& p.content == c.exports@[i].content
            &&& p.fingerprint@ == fingerprint_words(file_fingerprints[i])
        }
    &&& s.published_at == Some(published_at)
    &&& s.tags@ == c.tags@
}

impl Config {
    /// What the actor is.
    pub fn actr_type(&self) -> (t: &ActrType)
        ensures
            *t == self.package.actr_type,
    {
        &self.package.actr_type
    }

    /// The paths of the exported files.
    pub fn proto_paths(&self) -> (v: Vec<&String>)
        ensures
            v@.len() == self.exports@.len(),
            forall|i: int| 0 <= i < v@.len() ==> *(#[trigger] v@[i]) == self.exports@[i].path,
    {
        let mut v: Vec<&String> = Vec::new();
        let mut i: usize = 0;
        while i < self.exports.len()
            invariant
                i <= self.exports@.len(),
                v@.len() == i,
                forall|k: int| 0 <= k < i ==> *(#[trigger] v@[k]) == self.exports@[k].path,
            decreases self.exports@.len() - i,
        {
            v.push(&self.exports[i].path);
            i = i + 1;
        }
        v
    }

    /// The contents of the exported files.
    pub fn proto_contents(&self) -> (v: Vec<&str>)
        ensures
            v@.len() == self.exports@.len(),
            forall|i: int| 0 <= i < v@.len() ==> (#[trigger] v@[i])@ == self.exports@[i].content@,
    {
        let mut v: Vec<&str> = Vec::new();
        let mut i: usize = 0;
        while i < self.exports.len()
            invariant
                i <= self.exports@.len(),
                v@.len() == i,
                forall|k: int| 0 <= k < i ==> (#[trigger] v@[k])@ == self.exports@[k].content@,
            decreases self.exports@.len() - i,
        {
            v.push(self.exports[i].content.as_str());
            i = i + 1;
        }
        v
    }

    /// The first dependency with this alias.
    pub fn get_dependency(&self, alias: &str) -> (r: Option<&Dependency>)
        ensures
            ({
                let i = alias_place(self.dependencies@, alias@, 0);
                match r {
                    Some(d) => 0 <= i < self.dependencies@.len() && *d == self.dependencies@[i],
                    None => i == self.dependencies@.len(),
                }
            }),
    {
        let mut i: usize = 0;
        while i < self.dependencies.len()
            invariant
                i <= self.dependencies@.len(),
                alias_place(self.dependencies@, alias@, i as int) == alias_place(
                    self.dependencies@,
                    alias@,
                    0,
                ),
            decreases self.dependencies@.len() - i,
        {
            if same(self.dependencies[i].alias.as_str(), alias) {
                return Some(&self.dependencies[i]);
            }
            i = i + 1;
        }
        None
    }

    /// The dependencies in other realms, in order.
    pub fn cross_realm_dependencies(&self) -> (v: Vec<&Dependency>)
        ensures
            v@.len() == outside(
                self.dependencies@,
                self.realm,
                self.dependencies@.len() as int,
            ).len(),
            forall|i: int|
                0 <= i < v@.len() ==> *(#[trigger] v@[i]) == outside(
                    self.dependencies@,
                    self.realm,
                    self.dependencies@.len() as int,
                )[i],
    {
        let mut v: Vec<&Dependency> = Vec::new();
        let mut i: usize = 0;
        while i < self.dependencies.len()
            invariant
                i <= self.dependencies@.len(),
                v@.len() == outside(self.dependencies@, self.realm, i as int).len(),
                forall|k: int|
                    0 <= k < v@.len() ==> *(#[trigger] v@[k]) == outside(
                        self.dependencies@,
                        self.realm,
                        i as int,
                    )[k],
            decreases self.dependencies@.len() - i,
        {
            if self.dependencies[i].realm.realm_id != self.realm.realm_id {
                v.push(&self.dependencies[i]);
            }
            i = i + 1;
        }
        v
    }

    /// The command under a name.
    pub fn get_script(&self, name: &str) -> (r: Option<&str>)
        ensures
            match r {
                Some(s) => self.scripts@.contains_key(name@) && self.scripts@[name@]@ == s@,
                None => !self.scripts@.contains_key(name@),
            },
    {
        match self.scripts.get(name) {
            Some(s) => Some(s.as_str()),
            None => None,
        }
    }

    /// The names of all commands, each once.
    pub fn list_scripts(&self) -> (v: Vec<&str>)
        ensures
            v@.len() == self.scripts.listing().len(),
            forall|i: int|
                0 <= i < v@.len() ==> (#[trigger] v@[i])@ == self.scripts.listing()[i].0@,
            forall|name: Seq<char>|
                #[trigger] self.scripts@.contains_key(name) ==> exists|i: int|
                    0 <= i < v@.len() && (#[trigger] v@[i])@ == name,
    {
        let entries = self.scripts.entries();
        let mut v: Vec<&str> = Vec::new();
        let mut i: usize = 0;
        while i < entries.len()
            invariant
                entries@ == self.scripts.listing(),
                i <= entries@.len(),
                v@.len() == i,
                forall|k: int| 0 <= k < i ==> (#[trigger] v@[k])@ == entries@[k].0@,
            decreases entries@.len() - i,
        {
            v.push(entries[i].0.as_str());
            i = i + 1;
        }
        proof {
            assert forall|name: Seq<char>| #[trigger]
                self.scripts@.contains_key(name) implies exists|i: int|
                0 <= i < v@.len() && (#[trigger] v@[i])@ == name by {
                lemma_listed(entries@, entries@.len() as int, name);
                let i = choose|i: int| 0 <= i < entries@.len() && (#[trigger] entries@[i]).0@ == name;
                assert(v@[i]@ == name);
            }
        }
        v
    }

    /// The exported files as the service's fingerprint is calculated from them.
    pub fn fingerprint_inputs(&self) -> (v: Vec<FingerprintInput>)
        ensures
            v@.len() == self.exports@.len(),
            forall|i: int|
                0 <= i < v@.len() ==> {
                    let f = #[trigger] v@[i];
                    &&& input_name(self.exports@[i].path@, f.name@)
                    &&& f.content == self.exports@[i].content
                    &&& f.path == Some(self.exports@[i].path)
                },
    {
        let mut v: Vec<FingerprintInput> = Vec::new();
        let mut i: usize = 0;
        while i < self.exports.len()
            invariant
                i <= self.exports@.len(),
                v@.len() == i,
                forall|k: int|
                    0 <= k < i ==> {
                        let f = #[trigger] v@[k];
                        &&& input_name(self.exports@[k].path@, f.name@)
                        &&& f.content == self.exports@[k].content
                        &&& f.path == Some(self.exports@[k].path)
                    },
            decreases self.exports@.len() - i,
        {
            let export = &self.exports[i];
            let name = match path::file_name(export.path.as_str()) {
                Some(name) => name,
                None => "unknown.proto".to_owned(),
            };
            v.push(
                FingerprintInput {
                    name,
                    content: export.content.clone(),
                    path: Some(export.path.clone()),
                },
            );
            i = i + 1;
        }
        v
    }

    /// The service as it is published now, given its fingerprint and those of its files,
    /// each if it could be calculated. Without exported files, without a fingerprint of the
    /// whole, or at a time before the Unix epoch, nothing is published.
    pub fn calculate_service_spec(
        &self,
        fingerprint: Option<String>,
        file_fingerprints: &Vec<Option<String>>,
    ) -> (r: Option<ServiceSpec>)
        requires
            file_fingerprints@.len() == self.exports@.len(),
        ensures
            self.exports@.len() == 0 || fingerprint is None ==> r is None,
            r matches Some(s) ==> exists|t: i64|
                #[trigger] is_service_spec(*self, fingerprint->0, file_fingerprints@, t, s),
    {
        let now: Option<u64> = unix_secs();
        self.service_spec_at(fingerprint, file_fingerprints, now)
    }

    /// The service as it is published at a given time, if that is known.
    pub fn service_spec_at(
        &self,
        fingerprint: Option<String>,
        file_fingerprints: &Vec<Option<String>>,
        now: Option<u64>,
    ) -> (r: Option<ServiceSpec>)
        requires
            file_fingerprints@.len() == self.exports@.len(),
        ensures
            match r {
                Some(s) => self.exports@.len() > 0 && fingerprint is Some && now is Some
                    && is_service_spec(
                    *self,
                    fingerprint->0,
                    file_fingerprints@,
                    now->0 as i64,
                    s,
                ),
                None => self.exports@.len() == 0 || fingerprint is None || now is None,
            },
    {
        if self.exports.len() == 0 {
            return None;
        }
        let fingerprint = match fingerprint {
            Some(fingerprint) => fingerprint,
            None => {
                return None;
            },
        };
        let mut protobufs: Vec<Protobuf> = Vec::new();
        let mut i: usize = 0;
        while i < self.exports.len()
            invariant
                i <= self.exports@.len(),
                file_fingerprints@.len() == self.exports@.len(),
                protobufs@.len() == i,
                forall|k: int|
                    0 <= k < i ==> {
                        let p = #[trigger] protobufs@[k];
                        &&& package_name(self.exports@[k].path@, p.package@)
                        &&& p.content == self.exports@[k].content
                        &&& p.fingerprint@ == fingerprint_words(file_fingerprints@[k])
                    },
            decreases self.exports@.len() - i,
        {
            let export = &self.exports[i];
            let package = match path::file_stem(export.path.as_str()) {
                Some(name) => name,
                None => "unknown".to_owned(),
            };
            let file_fingerprint = match &file_fingerprints[i] {
                Some(f) => f.clone(),
                None => "error".to_owned(),
            };
            protobufs.push(
                Protobuf {
                    package,
                    content: export.content.clone(),
                    fingerprint: file_fingerprint,
                },
            );
            i = i + 1;
        }
        match now {
            Some(now) => {
                let published_at: i64 = now as i64;
                Some(
                    ServiceSpec {
                        name: self.package.name.clone(),
                        description: self.package.description.clone(),
                        fingerprint,
                        protobufs,
                        published_at: Some(published_at),
                        tags: copies(&self.tags),
                    },
                )
            },
            None => None,
        }
    }
}

proof fn lemma_listed<V>(entries: Seq<(String, V)>, n: int, name: Seq<char>)
    requires
        0 <= n <= entries.len(),
        crate::text_table::table_of(entries, n).contains_key(name),
    ensures
        exists|i: int| 0 <= i < n && (#[trigger] entries[i]).0@ == name,
    decreases n,
{
    if n > 0 {
        if entries[n - 1].0@ != name {
            lemma_listed(entries, n - 1, name);
        }
    }
}

impl PackageInfo {
    /// Who makes the actor.
    pub fn manufacturer(&self) -> (s: &str)
        ensures
            s@ == self.actr_type.manufacturer@,
    {
        self.actr_type.manufacturer.as_str()
    }

    /// The name of the actor's type.
    pub fn actor_type_name(&self) -> (s: &str)
        ensures
            s@ == self.actr_type.name@,
    {
        self.actr_type.name.as_str()
    }
}

/// A fingerprint matches a dependency: any does, unless a service is named.
pub open spec fn fingerprint_matches(d: Dependency, fingerprint: Seq<char>) -> bool {
    match d.service {
        Some(s) => s.fingerprint@ == fingerprint,
        None => true,
    }
}

impl Dependency {
    /// Whether the dependency lies in another realm.
    pub fn is_cross_realm(&self, self_realm: &Realm) -> (r: bool)
        ensures
            r == (self.realm.realm_id != self_realm.realm_id),
    {
        self.realm.realm_id != self_realm.realm_id
    }

    /// Whether the fingerprint must match.
    pub fn requires_exact_fingerprint(&self) -> (r: bool)
        ensures
            r == (self.service is Some),
    {
        self.service.is_some()
    }

    /// Whether a fingerprint matches: any does, unless a service is named.
    pub fn matches_fingerprint(&self, fingerprint: &str) -> (r: bool)
        ensures
            r == fingerprint_matches(*self, fingerprint@),
    {
        match &self.service {
            Some(s) => same(s.fingerprint.as_str(), fingerprint),
            None => true,
        }
    }
}

impl ProtoFile {
    /// The file's name, if its path names something. Nothing is said of paths that
    /// machines read differently.
    pub fn file_name(&self) -> (r: Option<String>)
        ensures
            path::is_portable(self.path@) ==> path::text_of(r) == path::final_name(self.path@),
    {
        path::file_name(self.path.as_str())
    }

    /// The file's extension, if it has one. Nothing is said of paths that machines read
    /// differently.
    pub fn extension(&self) -> (r: Option<String>)
        ensures
            path::is_portable(self.path@) ==> path::text_of(r) == match path::final_name(
                self.path@,
            ) {
                Some(name) => path::name_extension(name),
                None => None,
            },
    {
        path::extension(self.path.as_str())
    }
}

// ── Laws ──────────────────────────────────────────────────────────────────────

/// Every fingerprint matches exactly those dependencies that do not ask for another one.
pub proof fn loose_dependencies_match_anything(d: Dependency, a: Seq<char>, b: Seq<char>)
    requires
        a != b,
    ensures
        fingerprint_matches(d, a) && fingerprint_matches(d, b) <==> d.service is None,
{
}

/// The dependencies in other realms are those of all dependencies that lie there.
pub proof fn cross_realm_dependencies_are_complete(deps: Seq<Dependency>, realm: Realm, n: int, i: int)
    requires
        0 <= i < n <= deps.len(),
    ensures
        deps[i].realm.realm_id != realm.realm_id ==> outside(deps, realm, n).contains(deps[i]),
        forall|k: int|
            0 <= k < outside(deps, realm, n).len() ==> (#[trigger] outside(
                deps,
                realm,
                n,
            )[k]).realm.realm_id != realm.realm_id,
    decreases n,
{
    if n > 1 {
        cross_realm_dependencies_are_complete(deps, realm, n - 1, if i < n - 1 { i } else { 0 });
    }
    let before = outside(deps, realm, n - 1);
    let now = outside(deps, realm, n);
    if n == 1 {
        assert(before.len() == 0);
    }
    if deps[i].realm.realm_id != realm.realm_id {
        if i < n - 1 {
            let k = choose|k: int| 0 <= k < before.len() && before[k] == deps[i];
            assert(now[k] == deps[i]);
        } else {
            assert(now[now.len() - 1] == deps[i]);
        }
    }
}

/// A node would rather answer exactly if it has a fixed port range or a public address.
pub proof fn fixed_addresses_make_an_answerer(c: WebRtcAdvancedConfig, r: bool)
    requires
        call_ensures(WebRtcAdvancedConfig::prefer_answerer, (&c,), r),
    ensures
        !r <==> c.udp_ports is None && c.public_ips@.len() == 0,
{
}

/// The usual peer-to-peer settings leave the choice to the peers, and wait longest for a relay.
pub proof fn the_usual_peer_settings_are_open(
    c: WebRtcAdvancedConfig,
    answers: bool,
    policy: IceTransportPolicy,
    server: IceServer,
)
    requires
        call_ensures(<WebRtcAdvancedConfig as Default>::default, (), c),
        call_ensures(WebRtcAdvancedConfig::prefer_answerer, (&c,), answers),
        call_ensures(<IceTransportPolicy as Default>::default, (), policy),
        call_ensures(<IceServer as Default>::default, (), server),
    ensures
        !answers,
        c.ice_host_acceptance_min_wait == 0,
        c.ice_srflx_acceptance_min_wait == 20,
        c.ice_prflx_acceptance_min_wait == 2 * c.ice_srflx_acceptance_min_wait,
        c.ice_relay_acceptance_min_wait == 100,
        policy is All,
        server.urls@.len() == 0 && server.username is None && server.credential is None,
{
}

proof fn lemma_alias_place(deps: Seq<Dependency>, alias: Seq<char>, from: int)
    requires
        0 <= from <= deps.len(),
    ensures
        from <= alias_place(deps, alias, from) <= deps.len(),
        forall|i: int|
            from <= i < alias_place(deps, alias, from) ==> (#[trigger] deps[i]).alias@ != alias,
        alias_place(deps, alias, from) < deps.len() ==> deps[alias_place(
            deps,
            alias,
            from,
        )].alias@ == alias,
    decreases deps.len() - from,
{
    if from < deps.len() && deps[from].alias@ != alias {
        lemma_alias_place(deps, alias, from + 1);
    }
}

/// A dependency that is found under an alias has that alias, and is the first that has it;
/// none is found exactly if none has it.
pub proof fn a_dependency_is_found_by_its_alias(
    c: Config,
    alias: &str,
    r: Option<&Dependency>,
    i: int,
)
    requires
        call_ensures(Config::get_dependency, (&c, alias), r),
        0 <= i < c.dependencies@.len(),
        c.dependencies@[i].alias@ == alias@,
        forall|j: int| 0 <= j < i ==> (#[trigger] c.dependencies@[j]).alias@ != alias@,
    ensures
        r == Some(&c.dependencies@[i]),
{
    lemma_alias_place(c.dependencies@, alias@, 0);
    let k = alias_place(c.dependencies@, alias@, 0);
    if k < i {
        assert(c.dependencies@[k].alias@ != alias@);
    }
}

/// What is found under an alias has that alias.
pub proof fn what_is_found_has_the_alias(c: Config, alias: &str, r: Option<&Dependency>)
    requires
        call_ensures(Config::get_dependency, (&c, alias), r),
    ensures
        r matches Some(d) ==> d.alias@ == alias@ && c.dependencies@.contains(*d),
        (forall|i: int|
            0 <= i < c.dependencies@.len() ==> (#[trigger] c.dependencies@[i]).alias@ != alias@)
            ==> r is None,
{
    lemma_alias_place(c.dependencies@, alias@, 0);
    let k = alias_place(c.dependencies@, alias@, 0);
    if k < c.dependencies@.len() {
        assert(c.dependencies@.contains(c.dependencies@[k]));
    }
}

proof fn lemma_outside(deps: Seq<Dependency>, realm: Realm, n: int)
    requires
        0 <= n <= deps.len(),
    ensures
        outside(deps, realm, n) == deps.take(n).filter(
            |d: Dependency| d.realm.realm_id != realm.realm_id,
        ),
    decreases n,
{
    reveal(Seq::filter);
    let other = |d: Dependency| d.realm.realm_id != realm.realm_id;
    if n > 0 {
        lemma_outside(deps, realm, n - 1);
        assert(deps.take(n).drop_last() =~= deps.take(n - 1));
        assert(deps.take(n).last() == deps[n - 1]);
    } else {
        assert(deps.take(0).filter(other) =~= outside(deps, realm, 0));
    }
}

/// The dependencies in other realms are those of all dependencies whose realm is not the
/// configuration's own, in their order.
pub proof fn dependencies_elsewhere_are_those_of_other_realms(c: Config, v: Vec<&Dependency>)
    requires
        call_ensures(Config::cross_realm_dependencies, (&c,), v),
    ensures
        v@.map_values(|d: &Dependency| *d) == c.dependencies@.filter(
            |d: Dependency| d.realm.realm_id != c.realm.realm_id,
        ),
{
    lemma_outside(c.dependencies@, c.realm, c.dependencies@.len() as int);
    assert(c.dependencies@.take(c.dependencies@.len() as int) =~= c.dependencies@);
    assert(v@.map_values(|d: &Dependency| *d) =~= outside(
        c.dependencies@,
        c.realm,
        c.dependencies@.len() as int,
    ));
}

/// A dependency lies in another realm exactly if its realm is not the one asked about.
pub proof fn a_realm_is_foreign_if_it_is_another(
    d: Dependency,
    own: Realm,
    r: bool,
)
    requires
        call_ensures(Dependency::is_cross_realm, (&d, &own), r),
    ensures
        !r <==> d.realm == own,
{
}

/// A fingerprint must match exactly where a service is named, and then only its own does;
/// otherwise any does.
pub proof fn a_named_service_asks_for_its_fingerprint(
    d: Dependency,
    fingerprint: &str,
    exact: bool,
    r: bool,
)
    requires
        call_ensures(Dependency::requires_exact_fingerprint, (&d,), exact),
        call_ensures(Dependency::matches_fingerprint, (&d, fingerprint), r),
    ensures
        exact <==> d.service is Some,
        !exact ==> r,
        exact ==> (r <==> fingerprint@ == d.service->0.fingerprint@),
{
}

/// The paths and contents of exported files are theirs, in their order.
pub proof fn exports_are_listed_in_order(
    c: Config,
    paths: Vec<&String>,
    contents: Vec<&str>,
    i: int,
)
    requires
        call_ensures(Config::proto_paths, (&c,), paths),
        call_ensures(Config::proto_contents, (&c,), contents),
        0 <= i < c.exports@.len(),
    ensures
        paths@.len() == c.exports@.len(),
        contents@.len() == c.exports@.len(),
        *paths@[i] == c.exports@[i].path,
        contents@[i]@ == c.exports@[i].content@,
{
}

/// A command is listed exactly if it can be had under its name.
pub proof fn a_listed_command_can_be_had(
    c: Config,
    name: &str,
    r: Option<&str>,
    v: Vec<&str>,
    found: Option<&String>,
)
    requires
        call_ensures(Config::get_script, (&c, name), r),
        call_ensures(Config::list_scripts, (&c,), v),
        call_ensures(TextTable::<String>::get, (&c.scripts, name), found),
    ensures
        r is Some <==> found is Some,
        r matches Some(s) ==> s@ == found->0@,
        r is Some ==> exists|i: int| 0 <= i < v@.len() && (#[trigger] v@[i])@ == name@,
{
}

/// Commands are listed in the order in which the table has them.
pub proof fn commands_are_listed_in_order(
    c: Config,
    v: Vec<&str>,
    entries: &Vec<(String, String)>,
    i: int,
)
    requires
        call_ensures(Config::list_scripts, (&c,), v),
        call_ensures(TextTable::<String>::entries, (&c.scripts,), entries),
    ensures
        v@.len() == entries@.len(),
        0 <= i < v@.len() ==> v@[i]@ == entries@[i].0@,
{
}

/// Nothing is published of a service that exports nothing or has no fingerprint, whatever the
/// time is.
pub proof fn a_service_without_exports_is_not_published(
    c: Config,
    fingerprint: Option<String>,
    file_fingerprints: Vec<Option<String>>,
    r: Option<ServiceSpec>,
)
    requires
        file_fingerprints@.len() == c.exports@.len(),
        call_ensures(Config::calculate_service_spec, (&c, fingerprint, &file_fingerprints), r),
    ensures
        r is Some ==> c.exports@.len() > 0 && fingerprint is Some,
{
}

/// The actor's type is that of its package, part by part.
pub proof fn the_type_is_that_of_the_package(
    c: Config,
    t: &ActrType,
    manufacturer: &str,
    name: &str,
)
    requires
        call_ensures(Config::actr_type, (&c,), t),
        call_ensures(PackageInfo::manufacturer, (&c.package,), manufacturer),
        call_ensures(PackageInfo::actor_type_name, (&c.package,), name),
    ensures
        *t == c.package.actr_type,
        t.manufacturer@ == manufacturer@,
        t.name@ == name@,
{
}

/// A service is published exactly if it exports something, has a fingerprint, and the time is
/// known. It is published under the package's name, with the fingerprint, the tags and the
/// time that are given.
pub proof fn a_service_with_exports_is_published(
    c: Config,
    fingerprint: Option<String>,
    file_fingerprints: Vec<Option<String>>,
    now: Option<u64>,
    r: Option<ServiceSpec>,
)
    requires
        file_fingerprints@.len() == c.exports@.len(),
        call_ensures(Config::service_spec_at, (&c, fingerprint, &file_fingerprints, now), r),
    ensures
        r is Some <==> c.exports@.len() > 0 && fingerprint is Some && now is Some,
        r matches Some(s) ==> {
            &&& s.name == c.package.name
            &&& s.description == c.package.description
            &&& Some(s.fingerprint) == fingerprint
            &&& s.tags@ == c.tags@
            &&& now->0 <= i64::MAX ==> s.published_at == Some(now->0 as i64)
            &&& s.protobufs@.len() == c.exports@.len()
        },
{
}

/// Each exported file is published with its content and its fingerprint, or the word "error"
/// where there is none; where its name has a stem, it is published under that.
pub proof fn each_file_is_published_with_its_fingerprint(
    c: Config,
    fingerprint: Option<String>,
    file_fingerprints: Vec<Option<String>>,
    now: Option<u64>,
    r: Option<ServiceSpec>,
    i: int,
    inputs: Vec<FingerprintInput>,
    own_name: Option<String>,
)
    requires
        file_fingerprints@.len() == c.exports@.len(),
        call_ensures(Config::service_spec_at, (&c, fingerprint, &file_fingerprints, now), r) || (
        call_ensures(Config::calculate_service_spec, (&c, fingerprint, &file_fingerprints), r)),
        0 <= i < c.exports@.len(),
        call_ensures(Config::fingerprint_inputs, (&c,), inputs),
        call_ensures(ProtoFile::file_name, (&c.exports@[i],), own_name),
    ensures
        inputs@.len() == c.exports@.len(),
        inputs@[i].content == c.exports@[i].content,
        inputs@[i].path == Some(c.exports@[i].path),
        path::is_portable(c.exports@[i].path@) ==> inputs@[i].name@ == if own_name is Some {
            own_name->0@
        } else {
            "unknown.proto"@
        },
        r matches Some(s) ==> {
            &&& c.exports@.len() > 0 && fingerprint is Some
            &&& s.name == c.package.name
            &&& Some(s.fingerprint) == fingerprint
            &&& s.published_at is Some
            &&& s.protobufs@.len() == c.exports@.len()
            &&& s.protobufs@[i].content == c.exports@[i].content
            &&& s.protobufs@[i].fingerprint@ == (if file_fingerprints@[i] is Some {
                file_fingerprints@[i]->0@
            } else {
                "error"@
            })
            &&& path::is_portable(c.exports@[i].path@) ==> if own_name is Some {
                s.protobufs@[i].package@.is_prefix_of(own_name->0@)
            } else {
                s.protobufs@[i].package@ == "unknown"@
            }
        },
{
    if r is Some {
        let s = r->0;
        assert(package_name(c.exports@[i].path@, s.protobufs@[i].package@));
        if path::is_portable(c.exports@[i].path@) && own_name is Some {
            lemma_last_dot(own_name->0@);
        }
    }
    assert(input_name(c.exports@[i].path@, inputs@[i].name@));
}

proof fn lemma_last_dot(s: Seq<char>)
    ensures
        -1 <= path::last_dot(s) < s.len(),
        path::last_dot(s) >= 0 ==> s[path::last_dot(s)] == '.',
        forall|i: int| path::last_dot(s) < i < s.len() ==> s[i] != '.',
    decreases s.len(),
{
    if s.len() > 0 && s.last() != '.' {
        lemma_last_dot(s.drop_last());
        assert forall|i: int| path::last_dot(s) < i < s.len() implies s[i] != '.' by {
            if i < s.len() - 1 {
                assert(s.drop_last()[i] == s[i]);
            }
        }
    }
}

/// The extension of a file is what stands behind the last dot of its name, and a file whose
/// name has no dot but a leading one has none.
pub proof fn an_extension_ends_the_name(
    f: ProtoFile,
    name: Option<String>,
    extension: Option<String>,
)
    requires
        path::is_portable(f.path@),
        call_ensures(ProtoFile::file_name, (&f,), name),
        call_ensures(ProtoFile::extension, (&f,), extension),
    ensures
        extension matches Some(e) ==> {
            &&& name is Some
            &&& !e@.contains('.')
            &&& exists|stem: Seq<char>| stem.len() > 0 && name->0@ == #[trigger] (stem + seq!['.'])
                + e@
        },
        extension is None && name is Some && name->0@.len() > 0 ==> !name->0@.skip(1).contains('.'),
{
    if name is Some {
        let n = name->0@;
        lemma_last_dot(n);
        let d = path::last_dot(n);
        if d > 0 {
            let e = n.skip(d + 1);
            let stem = n.take(d);
            assert(n =~= (stem + seq!['.']) + e);
            assert(stem.len() > 0);
            assert forall|i: int| 0 <= i < e.len() implies e[i] != '.' by {
                assert(e[i] == n[d + 1 + i]);
            }
        } else if n.len() > 0 {
            assert forall|i: int| 0 <= i < n.skip(1).len() implies n.skip(1)[i] != '.' by {
                assert(n.skip(1)[i] == n[i + 1]);
            }
        }
    }
}

}
