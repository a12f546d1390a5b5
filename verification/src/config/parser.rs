//! Reading a configuration: checks, defaults, and everything that has to be looked up.
//!
//! Reading files and judging names happens outside. What came of it is handed in: the
//! chain of configurations, the exported files, and which names are allowed.
use crate::config::config::{
    Acl, AclRule, Config, Dependency, IceServer, IceTransportPolicy, ObservabilityConfig,
    PackageInfo, Permission, ProtoFile, ServiceRef, SourceRealm, WebRtcAdvancedConfig,
    WebRtcConfig,
};
use crate::config::error::{ConfigError, ConfigErrorView, ConfigResult};
use crate::config::raw::{
    RawActrType, RawConfig, RawDependency, RawObservabilityConfig, RawPackageConfig,
    RawWebRtcConfig,
};
use crate::config::value;
use crate::config::value::{find_entry, Value};
use crate::encoding;
use crate::encoding::parse_url;
use crate::path;
use crate::protocol::{ActrType, ActrTypeView, Realm};
use crate::text;
use crate::text::{capitals, chars_of, find_char, join, join3, piece, push_decimal, same};
use crate::text_table::TextTable;
use vstd::prelude::*;
use vstd::string::{StrSliceExecFns, StringExecFns};

verus! {

/// Where traces go unless something else is said.
pub const DEFAULT_TRACING_ENDPOINT: &'static str = "http://localhost:4317";

/// Which names are allowed: `None` for one that is, and why not for one that is not.
pub type NameVerdicts = TextTable<Option<String>>;

/// An exported file that was read: its path, and its content or why there is none.
#[derive(Debug)]
pub struct ExportRead {
    pub path: String,
    pub content: Result<String, String>,
}

/// Reads configurations of the first edition.
#[derive(Debug)]
pub struct ParserV1 {
    /// The directory that the configuration lies in.
    pub base_dir: String,
}

// ── Names and types ───────────────────────────────────────────────────────────

/// What is wrong with a name, if anything: it is not allowed, or has not been judged.
pub open spec fn name_error(
    names: Map<Seq<char>, Option<String>>,
    name: Seq<char>,
    before: Seq<char>,
) -> Option<ConfigErrorView> {
    if !names.contains_key(name) {
        Some(ConfigErrorView::NameNotChecked(name))
    } else {
        match names[name] {
            Some(why) => Some(ConfigErrorView::InvalidActrType(before + why@)),
            None => None,
        }
    }
}

fn check_name(names: &NameVerdicts, name: &str, before: &str) -> (r: ConfigResult<()>)
    ensures
        match r {
            Ok(_) => name_error(names@, name@, before@) is None,
            Err(e) => name_error(names@, name@, before@) == Some(e@),
        },
{
    match names.get(name) {
        None => Err(ConfigError::NameNotChecked(name.to_owned())),
        Some(verdict) => match verdict {
            Some(why) => Err(ConfigError::InvalidActrType(join(before, why.as_str()))),
            None => Ok(()),
        },
    }
}

/// What "manufacturer:name:version" or "manufacturer:name" says, before names are judged.
pub open spec fn type_parts(s: Seq<char>) -> Option<ActrTypeView> {
    let len = s.len() as int;
    let a = text::place_of(s, ':', 0);
    let b = text::place_of(s, ':', a + 1);
    let c = text::place_of(s, ':', b + 1);
    if a >= len {
        None
    } else if b >= len {
        Some(
            ActrTypeView {
                manufacturer: s.subrange(0, a),
                name: s.subrange(a + 1, len),
                version: Seq::empty(),
            },
        )
    } else if c >= len {
        Some(
            ActrTypeView {
                manufacturer: s.subrange(0, a),
                name: s.subrange(a + 1, b),
                version: s.subrange(b + 1, len),
            },
        )
    } else {
        None
    }
}

/// The actor type that a text names, or what is wrong with it.
pub open spec fn actr_type_of(s: Seq<char>, names: Map<Seq<char>, Option<String>>) -> Result<
    ActrTypeView,
    ConfigErrorView,
> {
    match type_parts(s) {
        None => Err(
            ConfigErrorView::InvalidActrType(
                "Invalid actor type '"@ + s + "': expected 'manufacturer:name:version'"@,
            ),
        ),
        Some(t) => match name_error(
            names,
            t.manufacturer,
            "Invalid manufacturer '"@ + t.manufacturer + "' in '"@ + s + "': "@,
        ) {
            Some(e) => Err(e),
            None => match name_error(
                names,
                t.name,
                "Invalid type name '"@ + t.name + "' in '"@ + s + "': "@,
            ) {
                Some(e) => Err(e),
                None => Ok(t),
            },
        },
    }
}

/// The service and fingerprint that "ServiceName:fingerprint" names, or what is wrong with
/// it. The name ends at the first colon.
pub open spec fn service_ref_of(s: Seq<char>) -> Result<(Seq<char>, Seq<char>), ConfigErrorView> {
    let a = text::place_of(s, ':', 0);
    if a < s.len() {
        Ok((s.subrange(0, a), s.subrange(a + 1, s.len() as int)))
    } else {
        Err(
            ConfigErrorView::InvalidActrType(
                "Invalid service reference '"@ + s + "': expected 'ServiceName:fingerprint'"@,
            ),
        )
    }
}

/// What is wrong with a package, if anything.
pub open spec fn package_error(
    raw: RawPackageConfig,
    names: Map<Seq<char>, Option<String>>,
) -> Option<ConfigErrorView> {
    match name_error(
        names,
        raw.actr_type.manufacturer@,
        "Invalid manufacturer name '"@ + raw.actr_type.manufacturer@ + "': "@,
    ) {
        Some(e) => Some(e),
        None => name_error(
            names,
            raw.actr_type.name@,
            "Invalid actor type name '"@ + raw.actr_type.name@ + "': "@,
        ),
    }
}

/// The package that was read.
pub open spec fn is_package(raw: RawPackageConfig, p: PackageInfo) -> bool {
    &&& p.name == raw.name
    &&& p.actr_type == (ActrType {
        manufacturer: raw.actr_type.manufacturer,
        name: raw.actr_type.name,
        version: raw.actr_type.version,
    })
    &&& p.description == raw.description
    &&& p.authors@ == match raw.authors {
        Some(authors) => authors@,
        None => Seq::empty(),
    }
    &&& p.license == raw.license
}

// ── Dependencies ──────────────────────────────────────────────────────────────

/// The dependency that an entry names is `d`.
pub open spec fn is_dependency(
    alias: String,
    raw: RawDependency,
    self_realm: Realm,
    names: Map<Seq<char>, Option<String>>,
    d: Dependency,
) -> bool {
    &&& d.alias == alias
    &&& match raw {
        RawDependency::Empty {  } => d.realm == self_realm && d.actr_type is None && d.service
            is None,
        RawDependency::Specified { actr_type, service, realm } => {
            &&& d.realm.realm_id == match realm {
                Some(id) => id,
                None => self_realm.realm_id,
            }
            &&& d.actr_type matches Some(t)
            &&& actr_type_of(actr_type@, names) == Ok::<ActrTypeView, ConfigErrorView>(t@)
            &&& match service {
                Some(s) => d.service matches Some(r) && service_ref_of(s@) == Ok::<
                    (Seq<char>, Seq<char>),
                    ConfigErrorView,
                >((r.name@, r.fingerprint@)),
                None => d.service is None,
            }
        },
    }
}

/// What is wrong with a dependency, if anything.
pub open spec fn dependency_error(
    raw: RawDependency,
    names: Map<Seq<char>, Option<String>>,
) -> Option<ConfigErrorView> {
    match raw {
        RawDependency::Empty {  } => None,
        RawDependency::Specified { actr_type, service, .. } => match actr_type_of(
            actr_type@,
            names,
        ) {
            Err(e) => Some(e),
            Ok(_) => match service {
                Some(s) => match service_ref_of(s@) {
                    Err(e) => Some(e),
                    Ok(_) => None,
                },
                None => None,
            },
        },
    }
}

/// What is wrong with the first dependency at or after `from` with which something is.
pub open spec fn dependencies_error(
    entries: Seq<(String, RawDependency)>,
    names: Map<Seq<char>, Option<String>>,
    from: int,
) -> Option<ConfigErrorView>
    decreases entries.len() - from,
{
    if from >= entries.len() {
        None
    } else {
        match dependency_error(entries[from].1, names) {
            Some(e) => Some(e),
            None => dependencies_error(entries, names, from + 1),
        }
    }
}

// ── Access rules ──────────────────────────────────────────────────────────────

/// An access rule, in mathematical terms.
#[verifier::ext_equal]
pub struct AclRuleView {
    pub permission: Permission,
    pub from_type: ActrTypeView,
    pub source_realm: Option<SourceRealm>,
}

impl View for AclRule {
    type V = AclRuleView;

    open spec fn view(&self) -> AclRuleView {
        AclRuleView {
            permission: self.permission,
            from_type: self.from_type@,
            source_realm: self.source_realm,
        }
    }
}

/// The beginning of a message about rule `idx`.
pub open spec fn rule_words(idx: nat, rest: Seq<char>) -> Seq<char> {
    "ACL rule "@ + text::decimal(idx) + rest
}

fn rule_error(idx: usize, rest: &str) -> (e: ConfigError)
    ensures
        e@ == ConfigErrorView::InvalidAcl(rule_words(idx as nat, rest@)),
{
    let mut m = "ACL rule ".to_owned();
    push_decimal(&mut m, idx as u64);
    m.append(rest);
    ConfigError::InvalidAcl(m)
}

/// The permission that a text in capitals names, or what is wrong with the text.
pub open spec fn permission_of(idx: nat, written: Seq<char>, capital: Seq<char>) -> Result<
    Permission,
    ConfigErrorView,
> {
    if capital == "ALLOW"@ {
        Ok(Permission::Allow)
    } else if capital == "DENY"@ {
        Ok(Permission::Deny)
    } else {
        Err(
            ConfigErrorView::InvalidAcl(
                rule_words(
                    idx,
                    ": invalid permission '"@ + written + "', expected 'ALLOW' or 'DENY'"@,
                ),
            ),
        )
    }
}

/// Reads a permission, as it is written and in capitals.
pub fn read_permission(idx: usize, written: &str, capital: &str) -> (r: ConfigResult<Permission>)
    ensures
        match r {
            Ok(p) => permission_of(idx as nat, written@, capital@) == Ok::<
                Permission,
                ConfigErrorView,
            >(p),
            Err(e) => permission_of(idx as nat, written@, capital@) == Err::<
                Permission,
                ConfigErrorView,
            >(e@),
        },
{
    if same(capital, "ALLOW") {
        Ok(Permission::Allow)
    } else if same(capital, "DENY") {
        Ok(Permission::Deny)
    } else {
        let rest = join3(": invalid permission '", written, "', expected 'ALLOW' or 'DENY'");
        Err(rule_error(idx, rest.as_str()))
    }
}

/// The realm that a rule is about: the actor's own unless one is named, by number (its low
/// 32 bits) or as "self", or any for "*".
pub open spec fn source_realm_of(idx: nat, v: Option<Value>, self_realm_id: u32) -> Result<
    SourceRealm,
    ConfigErrorView,
> {
    match v {
        None => Ok(SourceRealm::RealmId(self_realm_id)),
        Some(Value::Text(s)) => if s@ == "self"@ {
            Ok(SourceRealm::RealmId(self_realm_id))
        } else if s@ == "*"@ {
            Ok(SourceRealm::AnyRealm(true))
        } else {
            Err(
                ConfigErrorView::InvalidAcl(
                    rule_words(
                        idx,
                        ": invalid realm '"@ + s@ + "', expected 'self', '*', or an integer"@,
                    ),
                ),
            )
        },
        Some(Value::Integer(id)) => Ok(SourceRealm::RealmId(#[verifier::truncate] (id as u32))),
        Some(_) => Err(
            ConfigErrorView::InvalidAcl(
                rule_words(idx, ": realm must be 'self', '*', or an integer"@),
            ),
        ),
    }
}

fn read_source_realm(idx: usize, v: Option<&Value>, self_realm_id: u32) -> (r: ConfigResult<
    SourceRealm,
>)
    ensures
        ({
            let spec = source_realm_of(
                idx as nat,
                match v {
                    Some(v) => Some(*v),
                    None => None,
                },
                self_realm_id,
            );
            match r {
                Ok(realm) => spec == Ok::<SourceRealm, ConfigErrorView>(realm),
                Err(e) => spec == Err::<SourceRealm, ConfigErrorView>(e@),
            }
        }),
{
    match v {
        None => Ok(SourceRealm::RealmId(self_realm_id)),
        Some(v) => match v {
            Value::Text(s) => {
                if same(s.as_str(), "self") {
                    Ok(SourceRealm::RealmId(self_realm_id))
                } else if same(s.as_str(), "*") {
                    Ok(SourceRealm::AnyRealm(true))
                } else {
                    let rest = join3(
                        ": invalid realm '",
                        s.as_str(),
                        "', expected 'self', '*', or an integer",
                    );
                    Err(rule_error(idx, rest.as_str()))
                }
            },
            Value::Integer(id) => Ok(SourceRealm::RealmId(#[verifier::truncate] (*id as u32))),
            _ => Err(rule_error(idx, ": realm must be 'self', '*', or an integer")),
        },
    }
}

/// The rule that a value says, or what is wrong with it.
pub open spec fn rule_of(
    idx: nat,
    v: Value,
    self_realm_id: u32,
    names: Map<Seq<char>, Option<String>>,
) -> Result<AclRuleView, ConfigErrorView> {
    match v {
        Value::Table(entries) => match value::entry(entries@, "permission"@) {
            Some(Value::Text(p)) => match permission_of(idx, p@, text::in_capitals(p@)) {
                Err(e) => Err(e),
                Ok(permission) => match value::entry(entries@, "type"@) {
                    Some(Value::Text(t)) => match actr_type_of(t@, names) {
                        Err(e) => Err(e),
                        Ok(from_type) => match source_realm_of(
                            idx,
                            value::entry(entries@, "realm"@),
                            self_realm_id,
                        ) {
                            Err(e) => Err(e),
                            Ok(realm) => Ok(
                                AclRuleView { permission, from_type, source_realm: Some(realm) },
                            ),
                        },
                    },
                    _ => Err(
                        ConfigErrorView::InvalidAcl(rule_words(idx, " missing 'type' field"@)),
                    ),
                },
            },
            _ => Err(
                ConfigErrorView::InvalidAcl(rule_words(idx, " missing 'permission' field"@)),
            ),
        },
        _ => Err(ConfigErrorView::InvalidAcl(rule_words(idx, " must be a table"@))),
    }
}

/// The first `n` rules of a list, or what is wrong with the first that cannot be read.
pub open spec fn rules_of(
    list: Seq<Value>,
    n: int,
    self_realm_id: u32,
    names: Map<Seq<char>, Option<String>>,
) -> Result<Seq<AclRuleView>, ConfigErrorView>
    decreases n,
{
    if n <= 0 {
        Ok(Seq::empty())
    } else {
        match rules_of(list, n - 1, self_realm_id, names) {
            Err(e) => Err(e),
            Ok(rules) => match rule_of((n - 1) as nat, list[n - 1], self_realm_id, names) {
                Err(e) => Err(e),
                Ok(rule) => Ok(rules.push(rule)),
            },
        }
    }
}

/// The access rules that a value says, or what is wrong with it.
pub open spec fn acl_of(
    v: Value,
    self_realm_id: u32,
    names: Map<Seq<char>, Option<String>>,
) -> Result<Seq<AclRuleView>, ConfigErrorView> {
    match v.spec_get("rules"@) {
        Some(Value::Array(list)) => rules_of(
            list@,
            list@.len() as int,
            self_realm_id,
            names,
        ),
        _ => Err(ConfigErrorView::InvalidAcl("ACL must have 'rules' array"@)),
    }
}

/// The views of access rules.
pub open spec fn rule_views(rules: Seq<AclRule>) -> Seq<AclRuleView> {
    rules.map_values(|r: AclRule| r@)
}

proof fn lemma_rules_fail(
    list: Seq<Value>,
    i: int,
    n: int,
    self_realm_id: u32,
    names: Map<Seq<char>, Option<String>>,
)
    requires
        i <= n,
        rules_of(list, i, self_realm_id, names) is Err,
    ensures
        rules_of(list, n, self_realm_id, names) == rules_of(list, i, self_realm_id, names),
    decreases n,
{
    if i < n {
        lemma_rules_fail(list, i, n - 1, self_realm_id, names);
    }
}

// ── Peer-to-peer settings ─────────────────────────────────────────────────────

/// A port range that does not begin below its end.
pub open spec fn webrtc_error(raw: RawWebRtcConfig) -> Option<ConfigErrorView> {
    match (raw.port_range_start, raw.port_range_end) {
        (Some(start), Some(end)) => if start >= end {
            Some(
                ConfigErrorView::InvalidConfig(
                    "Invalid port range: start ("@ + text::decimal(start as nat)
                        + ") must be less than end ("@ + text::decimal(end as nat) + ")"@,
                ),
            )
        } else {
            None
        },
        _ => None,
    }
}

/// What is set, or this where nothing is.
pub open spec fn or_value(v: Option<u64>, d: u64) -> u64 {
    match v {
        Some(v) => v,
        None => d,
    }
}

/// A server entry holds just these URLs.
pub open spec fn holds_urls(s: IceServer, urls: Vec<String>) -> bool {
    s.urls == urls && s.username is None && s.credential is None
}

/// The peer-to-peer settings that were read: one server entry for the STUN URLs and one for
/// the TURN URLs, where there are any; public addresses count only with a port range.
pub open spec fn is_webrtc(raw: RawWebRtcConfig, c: WebRtcConfig) -> bool {
    let has_range = raw.port_range_start is Some && raw.port_range_end is Some;
    let stun = raw.stun_urls@.len() > 0;
    let turn = raw.turn_urls@.len() > 0;
    &&& c.ice_servers@.len() == (if stun { 1int } else { 0 }) + (if turn { 1int } else { 0 })
    &&& stun ==> holds_urls(c.ice_servers@[0], raw.stun_urls)
    &&& turn ==> holds_urls(c.ice_servers@.last(), raw.turn_urls)
    &&& c.ice_transport_policy == if raw.force_relay {
        IceTransportPolicy::Relay
    } else {
        IceTransportPolicy::All
    }
    &&& c.advanced.udp_ports == if has_range {
        Some((raw.port_range_start->0, raw.port_range_end->0))
    } else {
        None
    }
    &&& c.advanced.public_ips@ == if has_range {
        raw.public_ips@
    } else {
        Seq::empty()
    }
    &&& c.advanced.ice_host_acceptance_min_wait == or_value(raw.ice_host_acceptance_min_wait, 0)
    &&& c.advanced.ice_srflx_acceptance_min_wait == or_value(raw.ice_srflx_acceptance_min_wait, 20)
    &&& c.advanced.ice_prflx_acceptance_min_wait == or_value(raw.ice_prflx_acceptance_min_wait, 40)
    &&& c.advanced.ice_relay_acceptance_min_wait == or_value(
        raw.ice_relay_acceptance_min_wait,
        100,
    )
}

// ── The rest ──────────────────────────────────────────────────────────────────

/// The text that is set, or this where none is.
pub open spec fn or_text(s: Option<String>, d: Seq<char>) -> Seq<char> {
    match s {
        Some(s) => s@,
        None => d,
    }
}

/// The logging and tracing settings that were read.
pub open spec fn is_observability(
    raw: RawObservabilityConfig,
    package: Seq<char>,
    c: ObservabilityConfig,
) -> bool {
    &&& c.filter_level@ == or_text(raw.filter_level, "info"@)
    &&& c.tracing_enabled == match raw.tracing_enabled {
        Some(b) => b,
        None => false,
    }
    &&& c.tracing_endpoint@ == or_text(raw.tracing_endpoint, DEFAULT_TRACING_ENDPOINT@)
    &&& c.tracing_service_name@ == or_text(raw.tracing_service_name, package)
}

/// Why the first export at or after `from` that could not be read could not.
pub open spec fn exports_error(reads: Seq<ExportRead>, from: int) -> Option<ConfigErrorView>
    decreases reads.len() - from,
{
    if from >= reads.len() {
        None
    } else {
        match reads[from].content {
            Err(why) => Some(ConfigErrorView::ProtoFileNotFound(reads[from].path@, why@)),
            Ok(_) => exports_error(reads, from + 1),
        }
    }
}

/// What is wrong with a configuration, if anything: the first thing in the order in which
/// it is read.
pub open spec fn config_error(
    raw: RawConfig,
    reads: Seq<ExportRead>,
    names: Map<Seq<char>, Option<String>>,
) -> Option<ConfigErrorView> {
    match (raw.system.signaling.url, raw.system.deployment.realm_id) {
        (None, _) => Some(ConfigErrorView::MissingField("system.signaling.url"@)),
        (Some(_), None) => Some(ConfigErrorView::MissingField("system.deployment.realm"@)),
        (Some(url), Some(realm_id)) => match package_error(raw.package, names) {
            Some(e) => Some(e),
            None => match exports_error(reads, 0) {
                Some(e) => Some(e),
                None => match dependencies_error(raw.dependencies.listing(), names, 0) {
                    Some(e) => Some(e),
                    None => match encoding::url_of(url@) {
                        Err(e) => Some(ConfigErrorView::InvalidUrl(e)),
                        Ok(_) => match raw.acl {
                            Some(v) => match acl_of(v, realm_id, names) {
                                Err(e) => Some(e),
                                Ok(_) => webrtc_error(raw.system.webrtc),
                            },
                            None => webrtc_error(raw.system.webrtc),
                        },
                    },
                },
            },
        },
    }
}

/// The files are those that are exported, one by one.
pub open spec fn are_reads_of(
    base_dir: Seq<char>,
    exports: Seq<String>,
    reads: Seq<ExportRead>,
) -> bool {
    &&& reads.len() == exports.len()
    &&& forall|i: int|
        0 <= i < reads.len() ==> path::seen_from(base_dir, exports[i]@, (#[trigger] reads[i]).path@)
}

/// The configuration that was read.
pub open spec fn is_config(
    base_dir: Seq<char>,
    raw: RawConfig,
    reads: Seq<ExportRead>,
    names: Map<Seq<char>, Option<String>>,
    c: Config,
) -> bool {
    let realm = Realm { realm_id: raw.system.deployment.realm_id->0 };
    let listing = raw.dependencies.listing();
    &&& is_package(raw.package, c.package)
    &&& c.exports@.len() == raw.exports@.len()
    &&& forall|i: int|
        0 <= i < raw.exports@.len() ==> {
            &&& path::seen_from(base_dir, raw.exports@[i]@, (#[trigger] c.exports@[i]).path@)
            &&& c.exports@[i].path == reads[i].path
            &&& reads[i].content == Ok::<String, String>(c.exports@[i].content)
        }
    &&& c.dependencies@.len() == listing.len()
    &&& forall|i: int|
        0 <= i < listing.len() ==> is_dependency(
            listing[i].0,
            listing[i].1,
            realm,
            names,
            #[trigger] c.dependencies@[i],
        )
    &&& encoding::url_of(raw.system.signaling.url->0@) == Ok::<Seq<char>, Seq<char>>(
        c.signaling_url@,
    )
    &&& c.realm == realm
    &&& c.visible_in_discovery == match raw.system.discovery.visible {
        Some(v) => v,
        None => true,
    }
    &&& match raw.acl {
        Some(v) => c.acl matches Some(acl) && acl_of(v, realm.realm_id, names) == Ok::<
            Seq<AclRuleView>,
            ConfigErrorView,
        >(rule_views(acl.rules@)),
        None => c.acl is None,
    }
    &&& c.mailbox_path == raw.system.storage.mailbox_path
    &&& c.tags == raw.package.tags
    &&& c.scripts == raw.scripts
    &&& is_webrtc(raw.system.webrtc, c.webrtc)
    &&& c.websocket_listen_port == raw.system.websocket.listen_port
    &&& c.websocket_advertised_host == raw.system.websocket.advertised_host
    &&& is_observability(raw.system.observability, raw.package.name@, c.observability)
    &&& match raw.config_dir {
        Some(dir) => path::seen_from(base_dir, dir@, c.config_dir@),
        None => c.config_dir@ == base_dir,
    }
}

impl ParserV1 {
    /// A parser for the configuration at this path. Paths in it are seen from the directory
    /// it lies in, or from the present one if it lies in none. Nothing is said of paths that
    /// machines read differently.
    pub fn new(config_path: &str) -> (p: Self)
        ensures
            path::is_portable(config_path@) ==> {
                let parts = path::components(config_path@);
                if path::is_topmost(parts) {
                    p.base_dir@ == "."@
                } else {
                    path::components(p.base_dir@) == parts.drop_last()
                }
            },
            path::is_direct(config_path@) ==> p.base_dir@ == path::directory_of(config_path@),
    {
        let base_dir = match path::parent(config_path) {
            Some(dir) => dir,
            None => ".".to_owned(),
        };
        ParserV1 { base_dir }
    }

    /// The path of a file that the configuration names, as the process sees it.
    pub fn resolve(&self, name: &str) -> (r: String)
        ensures
            path::seen_from(self.base_dir@, name@, r@),
    {
        path::seen(self.base_dir.as_str(), name)
    }

    /// The paths of the exported files, as the process sees them.
    pub fn export_paths(&self, exports: &Vec<String>) -> (v: Vec<String>)
        ensures
            v@.len() == exports@.len(),
            forall|i: int|
                0 <= i < v@.len() ==> path::seen_from(
                    self.base_dir@,
                    exports@[i]@,
                    (#[trigger] v@[i])@,
                ),
    {
        let mut v: Vec<String> = Vec::new();
        let mut i: usize = 0;
        while i < exports.len()
            invariant
                i <= exports@.len(),
                v@.len() == i,
                forall|k: int|
                    0 <= k < i ==> path::seen_from(
                        self.base_dir@,
                        exports@[k]@,
                        (#[trigger] v@[k])@,
                    ),
            decreases exports@.len() - i,
        {
            v.push(self.resolve(exports[i].as_str()));
            i = i + 1;
        }
        v
    }

    /// Reads a configuration with all that it builds on merged in, its exported files as they
    /// were found at `export_paths`, and the names that are allowed. The first thing that is
    /// wrong is the result.
    pub fn parse(&self, raw: RawConfig, reads: Vec<ExportRead>, names: &NameVerdicts) -> (r:
        ConfigResult<Config>)
        requires
            raw.inherit is None,
            are_reads_of(self.base_dir@, raw.exports@, reads@),
        ensures
            match r {
                Ok(c) => config_error(raw, reads@, names@) is None && is_config(
                    self.base_dir@,
                    raw,
                    reads@,
                    names@,
                    c,
                ),
                Err(e) => config_error(raw, reads@, names@) == Some(e@),
            },
    {
        match self.validate_required_fields(&raw) {
            Ok(_) => {},
            Err(e) => {
                return Err(e);
            },
        }
        let tags = raw.package.tags;
        let package = match self.parse_package(
            raw.package.name,
            raw.package.actr_type,
            raw.package.description,
            raw.package.authors,
            raw.package.license,
            names,
        ) {
            Ok(p) => p,
            Err(e) => {
                return Err(e);
            },
        };
        let exports = match self.parse_exports(reads) {
            Ok(v) => v,
            Err(e) => {
                return Err(e);
            },
        };
        let realm_id: u32 = match raw.system.deployment.realm_id {
            Some(id) => id,
            None => {
                return Err(ConfigError::MissingField("system.deployment.realm"));
            },
        };
        let realm = Realm { realm_id };
        let dependencies = match self.parse_dependencies(&raw.dependencies, &realm, names) {
            Ok(v) => v,
            Err(e) => {
                return Err(e);
            },
        };
        let url = match raw.system.signaling.url {
            Some(url) => url,
            None => {
                return Err(ConfigError::MissingField("system.signaling.url"));
            },
        };
        let signaling_url = match parse_url(url.as_str()) {
            Ok(u) => u,
            Err(e) => {
                return Err(ConfigError::InvalidUrl(e));
            },
        };
        let observability = self.parse_observability(raw.system.observability, &package);
        let acl = match raw.acl {
            Some(v) => match self.parse_acl(&v, realm_id, names) {
                Ok(acl) => Some(acl),
                Err(e) => {
                    return Err(e);
                },
            },
            None => None,
        };
        let config_dir = match raw.config_dir {
            Some(dir) => self.resolve(dir.as_str()),
            None => self.base_dir.clone(),
        };
        let webrtc = match self.parse_webrtc(raw.system.webrtc) {
            Ok(w) => w,
            Err(e) => {
                return Err(e);
            },
        };
        let visible_in_discovery = match raw.system.discovery.visible {
            Some(v) => v,
            None => true,
        };
        Ok(
            Config {
                package,
                exports,
                dependencies,
                signaling_url,
                realm,
                visible_in_discovery,
                acl,
                mailbox_path: raw.system.storage.mailbox_path,
                tags,
                scripts: raw.scripts,
                webrtc,
                websocket_listen_port: raw.system.websocket.listen_port,
                websocket_advertised_host: raw.system.websocket.advertised_host,
                observability,
                config_dir,
            },
        )
    }

    fn parse_package(
        &self,
        name: String,
        actr_type: RawActrType,
        description: Option<String>,
        authors: Option<Vec<String>>,
        license: Option<String>,
        names: &NameVerdicts,
    ) -> (r: ConfigResult<PackageInfo>)
        ensures
            forall|raw: RawPackageConfig|
                raw.name == name && raw.actr_type == actr_type && raw.description == description
                    && raw.authors == authors && raw.license == license ==> match r {
                    Ok(p) => #[trigger] package_error(raw, names@) is None && is_package(raw, p),
                    Err(e) => package_error(raw, names@) == Some(e@),
                },
    {
        let before = join3("Invalid manufacturer name '", actr_type.manufacturer.as_str(), "': ");
        match check_name(names, actr_type.manufacturer.as_str(), before.as_str()) {
            Ok(_) => {},
            Err(e) => {
                return Err(e);
            },
        }
        let before = join3("Invalid actor type name '", actr_type.name.as_str(), "': ");
        match check_name(names, actr_type.name.as_str(), before.as_str()) {
            Ok(_) => {},
            Err(e) => {
                return Err(e);
            },
        }
        let authors = match authors {
            Some(authors) => authors,
            None => Vec::new(),
        };
        Ok(
            PackageInfo {
                name,
                actr_type: ActrType {
                    manufacturer: actr_type.manufacturer,
                    name: actr_type.name,
                    version: actr_type.version,
                },
                description,
                authors,
                license,
            },
        )
    }

    /// The exported files, or the error for the first that could not be read.
    pub fn parse_exports(&self, reads: Vec<ExportRead>) -> (r: ConfigResult<Vec<ProtoFile>>)
        ensures
            match r {
                Ok(v) => {
                    &&& exports_error(reads@, 0) is None
                    &&& v@.len() == reads@.len()
                    &&& forall|i: int|
                        0 <= i < reads@.len() ==> (#[trigger] v@[i]).path == reads@[i].path
                            && reads@[i].content == Ok::<String, String>(v@[i].content)
                },
                Err(e) => exports_error(reads@, 0) == Some(e@),
            },
    {
        let mut v: Vec<ProtoFile> = Vec::new();
        let mut i: usize = 0;
        while i < reads.len()
            invariant
                i <= reads@.len(),
                v@.len() == i,
                exports_error(reads@, i as int) == exports_error(reads@, 0),
                forall|k: int|
                    0 <= k < i ==> (#[trigger] v@[k]).path == reads@[k].path
                        && reads@[k].content == Ok::<String, String>(v@[k].content),
            decreases reads@.len() - i,
        {
            match &reads[i].content {
                Ok(content) => {
                    v.push(ProtoFile { path: reads[i].path.clone(), content: content.clone() });
                },
                Err(why) => {
                    return Err(
                        ConfigError::ProtoFileNotFound(reads[i].path.clone(), why.clone()),
                    );
                },
            }
            i = i + 1;
        }
        Ok(v)
    }

    /// The dependencies, in the order of their entries, or the error for the first that
    /// cannot be read.
    pub fn parse_dependencies(
        &self,
        deps: &TextTable<RawDependency>,
        self_realm: &Realm,
        names: &NameVerdicts,
    ) -> (r: ConfigResult<Vec<Dependency>>)
        ensures
            match r {
                Ok(v) => {
                    &&& dependencies_error(deps.listing(), names@, 0) is None
                    &&& v@.len() == deps.listing().len()
                    &&& forall|i: int|
                        0 <= i < v@.len() ==> is_dependency(
                            deps.listing()[i].0,
                            deps.listing()[i].1,
                            *self_realm,
                            names@,
                            #[trigger] v@[i],
                        )
                },
                Err(e) => dependencies_error(deps.listing(), names@, 0) == Some(e@),
            },
    {
        let entries = deps.entries();
        let mut v: Vec<Dependency> = Vec::new();
        let mut i: usize = 0;
        while i < entries.len()
            invariant
                entries@ == deps.listing(),
                i <= entries@.len(),
                v@.len() == i,
                dependencies_error(entries@, names@, i as int) == dependencies_error(
                    entries@,
                    names@,
                    0,
                ),
                forall|k: int|
                    0 <= k < i ==> is_dependency(
                        entries@[k].0,
                        entries@[k].1,
                        *self_realm,
                        names@,
                        #[trigger] v@[k],
                    ),
            decreases entries@.len() - i,
        {
            match self.parse_dependency(&entries[i].0, &entries[i].1, self_realm, names) {
                Ok(d) => {
                    v.push(d);
                },
                Err(e) => {
                    return Err(e);
                },
            }
            i = i + 1;
        }
        Ok(v)
    }

    fn parse_dependency(
        &self,
        alias: &String,
        raw: &RawDependency,
        self_realm: &Realm,
        names: &NameVerdicts,
    ) -> (r: ConfigResult<Dependency>)
        ensures
            match r {
                Ok(d) => dependency_error(*raw, names@) is None && is_dependency(
                    *alias,
                    *raw,
                    *self_realm,
                    names@,
                    d,
                ),
                Err(e) => dependency_error(*raw, names@) == Some(e@),
            },
    {
        match raw {
            RawDependency::Empty {  } => Ok(
                Dependency {
                    alias: alias.clone(),
                    realm: *self_realm,
                    actr_type: None,
                    service: None,
                },
            ),
            RawDependency::Specified { actr_type, service, realm } => {
                let actr_type = match self.parse_actr_type(actr_type.as_str(), names) {
                    Ok(t) => t,
                    Err(e) => {
                        return Err(e);
                    },
                };
                let service: Option<ServiceRef> = match service {
                    Some(s) => match self.parse_service_ref(s.as_str()) {
                        Ok(r) => Some(r),
                        Err(e) => {
                            return Err(e);
                        },
                    },
                    None => None,
                };
                let realm_id: u32 = match realm {
                    Some(id) => *id,
                    None => self_realm.realm_id,
                };
                Ok(
                    Dependency {
                        alias: alias.clone(),
                        realm: Realm { realm_id },
                        actr_type: Some(actr_type),
                        service,
                    },
                )
            },
        }
    }

    /// Reads "ServiceName:fingerprint".
    pub fn parse_service_ref(&self, s: &str) -> (r: ConfigResult<ServiceRef>)
        ensures
            match r {
                Ok(x) => service_ref_of(s@) == Ok::<(Seq<char>, Seq<char>), ConfigErrorView>(
                    (x.name@, x.fingerprint@),
                ),
                Err(e) => service_ref_of(s@) == Err::<(Seq<char>, Seq<char>), ConfigErrorView>(e@),
            },
    {
        let chars = chars_of(s);
        let a: usize = find_char(&chars, ':', 0);
        if a < chars.len() {
            Ok(ServiceRef { name: piece(s, 0, a), fingerprint: piece(s, a + 1, chars.len()) })
        } else {
            Err(
                ConfigError::InvalidActrType(
                    join3(
                        "Invalid service reference '",
                        s,
                        "': expected 'ServiceName:fingerprint'",
                    ),
                ),
            )
        }
    }

    /// Reads "manufacturer:name:version". The version may be left out.
    pub fn parse_actr_type(&self, s: &str, names: &NameVerdicts) -> (r: ConfigResult<ActrType>)
        ensures
            match r {
                Ok(t) => actr_type_of(s@, names@) == Ok::<ActrTypeView, ConfigErrorView>(t@),
                Err(e) => actr_type_of(s@, names@) == Err::<ActrTypeView, ConfigErrorView>(e@),
            },
    {
        let t = match self.split_actr_type(s) {
            Some(t) => t,
            None => {
                return Err(
                    ConfigError::InvalidActrType(
                        join3(
                            "Invalid actor type '",
                            s,
                            "': expected 'manufacturer:name:version'",
                        ),
                    ),
                );
            },
        };
        let mut before = join3("Invalid manufacturer '", t.manufacturer.as_str(), "' in '");
        before.append(s);
        before.append("': ");
        match check_name(names, t.manufacturer.as_str(), before.as_str()) {
            Ok(_) => {},
            Err(e) => {
                return Err(e);
            },
        }
        let mut before = join3("Invalid type name '", t.name.as_str(), "' in '");
        before.append(s);
        before.append("': ");
        match check_name(names, t.name.as_str(), before.as_str()) {
            Ok(_) => {},
            Err(e) => {
                return Err(e);
            },
        }
        Ok(t)
    }

    fn split_actr_type(&self, s: &str) -> (r: Option<ActrType>)
        ensures
            match r {
                Some(t) => type_parts(s@) == Some(t@),
                None => type_parts(s@) is None,
            },
    {
        let chars = chars_of(s);
        let len: usize = chars.len();
        let a: usize = find_char(&chars, ':', 0);
        if a >= len {
            return None;
        }
        let b: usize = find_char(&chars, ':', a + 1);
        if b >= len {
            return Some(
                ActrType {
                    manufacturer: piece(s, 0, a),
                    name: piece(s, a + 1, len),
                    version: String::new(),
                },
            );
        }
        let c: usize = find_char(&chars, ':', b + 1);
        if c >= len {
            Some(
                ActrType {
                    manufacturer: piece(s, 0, a),
                    name: piece(s, a + 1, b),
                    version: piece(s, b + 1, len),
                },
            )
        } else {
            None
        }
    }

    /// Reads access rules.
    pub fn parse_acl(&self, v: &Value, self_realm_id: u32, names: &NameVerdicts) -> (r:
        ConfigResult<Acl>)
        ensures
            match r {
                Ok(acl) => acl_of(*v, self_realm_id, names@) == Ok::<
                    Seq<AclRuleView>,
                    ConfigErrorView,
                >(rule_views(acl.rules@)),
                Err(e) => acl_of(*v, self_realm_id, names@) == Err::<
                    Seq<AclRuleView>,
                    ConfigErrorView,
                >(e@),
            },
    {
        let list: &Vec<Value> = match v.get("rules") {
            Some(Value::Array(list)) => list,
            _ => {
                return Err(ConfigError::InvalidAcl("ACL must have 'rules' array".to_owned()));
            },
        };
        let mut rules: Vec<AclRule> = Vec::new();
        assert(rule_views(rules@) =~= Seq::empty());
        let mut i: usize = 0;
        while i < list.len()
            invariant
                i <= list@.len(),
                rules_of(list@, i as int, self_realm_id, names@) == Ok::<
                    Seq<AclRuleView>,
                    ConfigErrorView,
                >(rule_views(rules@)),
                acl_of(*v, self_realm_id, names@) == rules_of(
                    list@,
                    list@.len() as int,
                    self_realm_id,
                    names@,
                ),
            decreases list@.len() - i,
        {
            let ghost before = rules@;
            match self.parse_acl_rule(i, &list[i], self_realm_id, names) {
                Ok(rule) => {
                    rules.push(rule);
                    assert(rule_views(rules@) =~= rule_views(before).push(rule@));
                },
                Err(e) => {
                    proof {
                        lemma_rules_fail(
                            list@,
                            i + 1,
                            list@.len() as int,
                            self_realm_id,
                            names@,
                        );
                    }
                    return Err(e);
                },
            }
            i = i + 1;
        }
        Ok(Acl { rules })
    }

    fn parse_acl_rule(
        &self,
        idx: usize,
        v: &Value,
        self_realm_id: u32,
        names: &NameVerdicts,
    ) -> (r: ConfigResult<AclRule>)
        ensures
            match r {
                Ok(rule) => rule_of(idx as nat, *v, self_realm_id, names@) == Ok::<
                    AclRuleView,
                    ConfigErrorView,
                >(rule@),
                Err(e) => rule_of(idx as nat, *v, self_realm_id, names@) == Err::<
                    AclRuleView,
                    ConfigErrorView,
                >(e@),
            },
    {
        let entries: &Vec<(String, Value)> = match v {
            Value::Table(entries) => entries,
            _ => {
                return Err(rule_error(idx, " must be a table"));
            },
        };
        let written: &String = match find_entry(entries, "permission") {
            Some(Value::Text(s)) => s,
            _ => {
                return Err(rule_error(idx, " missing 'permission' field"));
            },
        };
        let capital = capitals(written.as_str());
        let permission = match read_permission(idx, written.as_str(), capital.as_str()) {
            Ok(p) => p,
            Err(e) => {
                return Err(e);
            },
        };
        let type_text: &String = match find_entry(entries, "type") {
            Some(Value::Text(s)) => s,
            _ => {
                return Err(rule_error(idx, " missing 'type' field"));
            },
        };
        let from_type = match self.parse_actr_type(type_text.as_str(), names) {
            Ok(t) => t,
            Err(e) => {
                return Err(e);
            },
        };
        let source_realm = match read_source_realm(
            idx,
            find_entry(entries, "realm"),
            self_realm_id,
        ) {
            Ok(s) => s,
            Err(e) => {
                return Err(e);
            },
        };
        Ok(AclRule { permission, from_type, source_realm: Some(source_realm) })
    }

    /// Reads peer-to-peer settings. A port range must begin below its end.
    pub fn parse_webrtc(&self, raw: RawWebRtcConfig) -> (r: ConfigResult<WebRtcConfig>)
        ensures
            match r {
                Ok(c) => webrtc_error(raw) is None && is_webrtc(raw, c),
                Err(e) => webrtc_error(raw) == Some(e@),
            },
    {
        let mut ice_servers: Vec<IceServer> = Vec::new();
        if raw.stun_urls.len() > 0 {
            ice_servers.push(IceServer { urls: raw.stun_urls, username: None, credential: None });
        }
        if raw.turn_urls.len() > 0 {
            ice_servers.push(IceServer { urls: raw.turn_urls, username: None, credential: None });
        }
        let ice_transport_policy = if raw.force_relay {
            IceTransportPolicy::Relay
        } else {
            IceTransportPolicy::All
        };
        let mut udp_ports: Option<(u16, u16)> = None;
        let mut public_ips: Vec<String> = Vec::new();
        if let (Some(start), Some(end)) = (raw.port_range_start, raw.port_range_end) {
            if start >= end {
                let mut m = "Invalid port range: start (".to_owned();
                push_decimal(&mut m, start as u64);
                m.append(") must be less than end (");
                push_decimal(&mut m, end as u64);
                m.append(")");
                return Err(ConfigError::InvalidConfig(m));
            }
            udp_ports = Some((start, end));
            public_ips = raw.public_ips;
        }
        let advanced = WebRtcAdvancedConfig {
            udp_ports,
            public_ips,
            ice_host_acceptance_min_wait: raw.ice_host_acceptance_min_wait.unwrap_or(0),
            ice_srflx_acceptance_min_wait: raw.ice_srflx_acceptance_min_wait.unwrap_or(20),
            ice_prflx_acceptance_min_wait: raw.ice_prflx_acceptance_min_wait.unwrap_or(40),
            ice_relay_acceptance_min_wait: raw.ice_relay_acceptance_min_wait.unwrap_or(100),
        };
        Ok(WebRtcConfig { ice_servers, ice_transport_policy, advanced })
    }

    /// Reads logging and tracing settings. Traces are reported under the package's name
    /// unless another is given.
    pub fn parse_observability(&self, raw: RawObservabilityConfig, package: &PackageInfo) -> (c:
        ObservabilityConfig)
        ensures
            is_observability(raw, package.name@, c),
    {
        ObservabilityConfig {
            filter_level: match raw.filter_level {
                Some(s) => s,
                None => "info".to_owned(),
            },
            tracing_enabled: match raw.tracing_enabled {
                Some(b) => b,
                None => false,
            },
            tracing_endpoint: match raw.tracing_endpoint {
                Some(s) => s,
                None => DEFAULT_TRACING_ENDPOINT.to_owned(),
            },
            tracing_service_name: match raw.tracing_service_name {
                Some(s) => s,
                None => package.name.clone(),
            },
        }
    }

    /// The signaling server and the realm must be set.
    pub fn validate_required_fields(&self, raw: &RawConfig) -> (r: ConfigResult<()>)
        ensures
            if raw.system.signaling.url is None {
                r matches Err(e) && e@ == ConfigErrorView::MissingField("system.signaling.url"@)
            } else if raw.system.deployment.realm_id is None {
                r matches Err(e) && e@ == ConfigErrorView::MissingField("system.deployment.realm"@)
            } else {
                r is Ok
            },
    {
        if raw.system.signaling.url.is_none() {
            return Err(ConfigError::MissingField("system.signaling.url"));
        }
        if raw.system.deployment.realm_id.is_none() {
            return Err(ConfigError::MissingField("system.deployment.realm"));
        }
        Ok(())
    }
}

// ── Laws ──────────────────────────────────────────────────────────────────────

proof fn lemma_place(s: Seq<char>, c: char, from: int, at: int)
    requires
        0 <= from <= at <= s.len(),
        forall|i: int| from <= i < at ==> s[i] != c,
        at == s.len() || s[at] == c,
    ensures
        text::place_of(s, c, from) == at,
    decreases at - from,
{
    if from < at {
        lemma_place(s, c, from + 1, at);
    }
}

/// A type that is written "manufacturer:name:version" is read back as it was, for parts
/// without a colon and names that are allowed.
pub proof fn a_written_type_is_read(t: ActrTypeView, names: Map<Seq<char>, Option<String>>)
    requires
        !t.manufacturer.contains(':'),
        !t.name.contains(':'),
        !t.version.contains(':'),
        names.contains_key(t.manufacturer) && names[t.manufacturer] is None,
        names.contains_key(t.name) && names[t.name] is None,
    ensures
        actr_type_of(
            t.manufacturer + seq![':'] + t.name + seq![':'] + t.version,
            names,
        ) == Ok::<ActrTypeView, ConfigErrorView>(t),
{
    let s = t.manufacturer + seq![':'] + t.name + seq![':'] + t.version;
    let a = t.manufacturer.len() as int;
    let b = a + 1 + t.name.len() as int;
    let len = s.len() as int;
    assert forall|i: int| 0 <= i < a implies s[i] != ':' by {
        assert(s[i] == t.manufacturer[i]);
        assert(t.manufacturer.contains(t.manufacturer[i]));
    }
    assert forall|i: int| a + 1 <= i < b implies s[i] != ':' by {
        assert(s[i] == t.name[i - a - 1]);
        assert(t.name.contains(t.name[i - a - 1]));
    }
    assert forall|i: int| b + 1 <= i < len implies s[i] != ':' by {
        assert(s[i] == t.version[i - b - 1]);
        assert(t.version.contains(t.version[i - b - 1]));
    }
    lemma_place(s, ':', 0, a);
    lemma_place(s, ':', a + 1, b);
    lemma_place(s, ':', b + 1, len);
    assert(s.subrange(0, a) =~= t.manufacturer);
    assert(s.subrange(a + 1, b) =~= t.name);
    assert(s.subrange(b + 1, len) =~= t.version);
}

/// A service that is written "name:fingerprint" is read back as it was, for a name without a
/// colon.
pub proof fn a_written_service_is_read(name: Seq<char>, fingerprint: Seq<char>)
    requires
        !name.contains(':'),
    ensures
        service_ref_of(name + seq![':'] + fingerprint) == Ok::<
            (Seq<char>, Seq<char>),
            ConfigErrorView,
        >((name, fingerprint)),
{
    let s = name + seq![':'] + fingerprint;
    let a = name.len() as int;
    assert forall|i: int| 0 <= i < a implies s[i] != ':' by {
        assert(s[i] == name[i]);
        assert(name.contains(name[i]));
    }
    lemma_place(s, ':', 0, a);
    assert(s.subrange(0, a) =~= name);
    assert(s.subrange(a + 1, s.len() as int) =~= fingerprint);
}

proof fn lemma_dependencies_ask(
    entries: Seq<(String, RawDependency)>,
    names: Map<Seq<char>, Option<String>>,
    from: int,
    name: Seq<char>,
)
    requires
        names.contains_key(name),
    ensures
        dependencies_error(entries, names, from) != Some(ConfigErrorView::NameNotChecked(name)),
    decreases entries.len() - from,
{
    if from < entries.len() {
        lemma_dependencies_ask(entries, names, from + 1, name);
    }
}

proof fn lemma_rules_ask(
    list: Seq<Value>,
    n: int,
    self_realm_id: u32,
    names: Map<Seq<char>, Option<String>>,
    name: Seq<char>,
)
    requires
        names.contains_key(name),
    ensures
        rules_of(list, n, self_realm_id, names) != Err::<Seq<AclRuleView>, ConfigErrorView>(
            ConfigErrorView::NameNotChecked(name),
        ),
    decreases n,
{
    if n > 0 {
        lemma_rules_ask(list, n - 1, self_realm_id, names, name);
    }
}

proof fn lemma_exports_ask(reads: Seq<ExportRead>, from: int, name: Seq<char>)
    ensures
        exports_error(reads, from) != Some(ConfigErrorView::NameNotChecked(name)),
    decreases reads.len() - from,
{
    if from < reads.len() {
        lemma_exports_ask(reads, from + 1, name);
    }
}

/// A name that was judged is never asked for again, so a configuration with finitely many
/// names is read after finitely many questions.
pub proof fn a_judged_name_is_not_asked_for_again(
    raw: RawConfig,
    reads: Seq<ExportRead>,
    names: Map<Seq<char>, Option<String>>,
    name: Seq<char>,
)
    requires
        names.contains_key(name),
    ensures
        config_error(raw, reads, names) != Some(ConfigErrorView::NameNotChecked(name)),
{
    lemma_exports_ask(reads, 0, name);
    lemma_dependencies_ask(raw.dependencies.listing(), names, 0, name);
    if let (Some(v), Some(realm_id)) = (raw.acl, raw.system.deployment.realm_id) {
        if let Some(Value::Array(list)) = v.spec_get("rules"@) {
            lemma_rules_ask(list@, list@.len() as int, realm_id, names, name);
        }
    }
}

/// A dependency that names no realm lies in the actor's own, and one that names a realm lies
/// there. Every entry becomes one dependency, under its alias and in its place.
pub proof fn a_dependency_lies_in_its_realm_or_ones_own(
    p: ParserV1,
    deps: TextTable<RawDependency>,
    self_realm: Realm,
    names: NameVerdicts,
    r: ConfigResult<Vec<Dependency>>,
    i: int,
    crosses: bool,
)
    requires
        call_ensures(ParserV1::parse_dependencies, (&p, &deps, &self_realm, &names), r),
        r is Ok,
        0 <= i < r->Ok_0@.len(),
        call_ensures(Dependency::is_cross_realm, (&r->Ok_0@[i], &self_realm), crosses),
    ensures
        r->Ok_0@.len() == deps.listing().len(),
        r->Ok_0@[i].alias == deps.listing()[i].0,
        match deps.listing()[i].1 {
            RawDependency::Specified { realm: Some(id), .. } => r->Ok_0@[i].realm.realm_id == id
                && (crosses <==> id != self_realm.realm_id),
            _ => r->Ok_0@[i].realm == self_realm && !crosses,
        },
{
    assert(is_dependency(
        deps.listing()[i].0,
        deps.listing()[i].1,
        self_realm,
        names@,
        r->Ok_0@[i],
    ));
}

/// In a configuration that was read, a dependency that names no realm lies in the
/// configuration's own realm, and one that names a realm lies there.
pub proof fn a_read_dependency_lies_in_its_realm_or_ones_own(
    p: ParserV1,
    raw: RawConfig,
    reads: Vec<ExportRead>,
    names: NameVerdicts,
    r: ConfigResult<Config>,
    i: int,
)
    requires
        call_ensures(ParserV1::parse, (&p, raw, reads, &names), r),
        r is Ok,
        0 <= i < raw.dependencies.listing().len(),
    ensures
        r->Ok_0.dependencies@.len() == raw.dependencies.listing().len(),
        r->Ok_0.dependencies@[i].alias == raw.dependencies.listing()[i].0,
        match raw.dependencies.listing()[i].1 {
            RawDependency::Specified { realm: Some(id), .. } =>
                r->Ok_0.dependencies@[i].realm.realm_id == id,
            _ => r->Ok_0.dependencies@[i].realm == r->Ok_0.realm,
        },
{
    assert(is_dependency(
        raw.dependencies.listing()[i].0,
        raw.dependencies.listing()[i].1,
        r->Ok_0.realm,
        names@,
        r->Ok_0.dependencies@[i],
    ));
}

/// A dependency is of the type that its entry names, and asks for the service that its entry
/// names; one of which nothing is said yet has neither.
pub proof fn a_dependency_is_what_its_entry_names(
    p: ParserV1,
    deps: TextTable<RawDependency>,
    self_realm: Realm,
    names: NameVerdicts,
    r: ConfigResult<Vec<Dependency>>,
    i: int,
    type_text: &str,
    read_type: ConfigResult<ActrType>,
    service_text: &str,
    read_service: ConfigResult<ServiceRef>,
)
    requires
        call_ensures(ParserV1::parse_dependencies, (&p, &deps, &self_realm, &names), r),
        r is Ok,
        0 <= i < deps.listing().len(),
        call_ensures(ParserV1::parse_actr_type, (&p, type_text, &names), read_type),
        call_ensures(ParserV1::parse_service_ref, (&p, service_text), read_service),
    ensures
        match deps.listing()[i].1 {
            RawDependency::Empty {  } => r->Ok_0@[i].actr_type is None && r->Ok_0@[i].service
                is None,
            RawDependency::Specified { actr_type, service, .. } => {
                &&& actr_type@ == type_text@ ==> read_type is Ok && (
                r->Ok_0@[i].actr_type matches Some(t) && t@ == read_type->Ok_0@)
                &&& service is None ==> r->Ok_0@[i].service is None
                &&& (service matches Some(s) && s@ == service_text@) ==> read_service is Ok && (
                r->Ok_0@[i].service matches Some(s) && s.name@ == read_service->Ok_0.name@
                    && s.fingerprint@ == read_service->Ok_0.fingerprint@)
            },
        },
{
    assert(is_dependency(
        deps.listing()[i].0,
        deps.listing()[i].1,
        self_realm,
        names@,
        r->Ok_0@[i],
    ));
}

proof fn lemma_first_wrong_dependency(
    entries: Seq<(String, RawDependency)>,
    names: Map<Seq<char>, Option<String>>,
    from: int,
    i: int,
)
    requires
        0 <= from <= i <= entries.len(),
        forall|k: int| from <= k < i ==> dependency_error((#[trigger] entries[k]).1, names) is None,
        i < entries.len() ==> dependency_error(entries[i].1, names) is Some,
    ensures
        dependencies_error(entries, names, from) == if i < entries.len() {
            dependency_error(entries[i].1, names)
        } else {
            None
        },
    decreases i - from,
{
    if from < i {
        lemma_first_wrong_dependency(entries, names, from + 1, i);
    }
}

/// What is wrong with a single entry is wrong with a table of just that entry; a table is
/// refused exactly for the first entry that is.
pub proof fn dependencies_fail_with_the_first_wrong_one(
    p: ParserV1,
    deps: TextTable<RawDependency>,
    self_realm: Realm,
    names: NameVerdicts,
    r: ConfigResult<Vec<Dependency>>,
    i: int,
)
    requires
        call_ensures(ParserV1::parse_dependencies, (&p, &deps, &self_realm, &names), r),
        0 <= i <= deps.listing().len(),
        forall|k: int|
            0 <= k < i ==> dependency_error((#[trigger] deps.listing()[k]).1, names@) is None,
        i < deps.listing().len() ==> dependency_error(deps.listing()[i].1, names@) is Some,
    ensures
        r is Ok <==> i == deps.listing().len(),
        r matches Err(e) ==> Some(e@) == dependency_error(deps.listing()[i].1, names@),
{
    lemma_first_wrong_dependency(deps.listing(), names@, 0, i);
}

/// An entry is wrong exactly if its type cannot be read or else its service cannot, with the
/// error of that; an entry that says nothing is never wrong.
pub proof fn an_entry_is_wrong_for_its_type_or_service(
    p: ParserV1,
    names: NameVerdicts,
    actr_type: String,
    service: Option<String>,
    realm: Option<u32>,
    type_text: &str,
    read_type: ConfigResult<ActrType>,
    service_text: &str,
    read_service: ConfigResult<ServiceRef>,
)
    requires
        type_text@ == actr_type@,
        service matches Some(s) ==> service_text@ == s@,
        call_ensures(ParserV1::parse_actr_type, (&p, type_text, &names), read_type),
        call_ensures(ParserV1::parse_service_ref, (&p, service_text), read_service),
    ensures
        dependency_error(RawDependency::Empty {  }, names@) is None,
        dependency_error(RawDependency::Specified { actr_type, service, realm }, names@)
            == match read_type {
            Err(e) => Some(e@),
            Ok(_) => if service is None {
                None
            } else {
                match read_service {
                    Err(e) => Some(e@),
                    Ok(_) => None,
                }
            },
        },
{
}

/// The name is allowed.
pub open spec fn is_allowed(names: Map<Seq<char>, Option<String>>, name: Seq<char>) -> bool {
    names.contains_key(name) && names[name] is None
}

proof fn lemma_place_of(s: Seq<char>, c: char, from: int)
    requires
        0 <= from <= s.len(),
    ensures
        from <= text::place_of(s, c, from) <= s.len(),
        forall|i: int| from <= i < text::place_of(s, c, from) ==> s[i] != c,
        text::place_of(s, c, from) < s.len() ==> s[text::place_of(s, c, from)] == c,
    decreases s.len() - from,
{
    if from < s.len() && s[from] != c {
        lemma_place_of(s, c, from + 1);
    }
}

/// A type that was read is written as its manufacturer, its name and, unless that is empty or
/// left out, its version, with colons between them and none within; and both names are allowed.
pub proof fn a_read_type_is_written_so(
    p: ParserV1,
    s: &str,
    names: NameVerdicts,
    r: ConfigResult<ActrType>,
)
    requires
        call_ensures(ParserV1::parse_actr_type, (&p, s, &names), r),
        r is Ok,
    ensures
        !r->Ok_0.manufacturer@.contains(':'),
        !r->Ok_0.name@.contains(':'),
        !r->Ok_0.version@.contains(':'),
        is_allowed(names@, r->Ok_0.manufacturer@),
        is_allowed(names@, r->Ok_0.name@),
        s@ == r->Ok_0.manufacturer@ + seq![':'] + r->Ok_0.name@ + seq![':'] + r->Ok_0.version@ || (
        r->Ok_0.version@.len() == 0 && s@ == r->Ok_0.manufacturer@ + seq![':'] + r->Ok_0.name@),
{
    let t = r->Ok_0@;
    let w = s@;
    let len = w.len() as int;
    lemma_place_of(w, ':', 0);
    let a = text::place_of(w, ':', 0);
    lemma_place_of(w, ':', a + 1);
    let b = text::place_of(w, ':', a + 1);
    assert(type_parts(w) == Some(t));
    if b >= len {
        assert(w =~= t.manufacturer + seq![':'] + t.name);
    } else {
        lemma_place_of(w, ':', b + 1);
        assert(w =~= t.manufacturer + seq![':'] + t.name + seq![':'] + t.version);
    }
}

/// A type is read if it is written with one or two colons and its names are allowed. A name
/// that has not been judged is asked for; one that is not allowed is refused with the reason.
pub proof fn a_well_written_type_is_read(
    p: ParserV1,
    s: &str,
    names: NameVerdicts,
    r: ConfigResult<ActrType>,
    manufacturer: Seq<char>,
    name: Seq<char>,
    version: Option<Seq<char>>,
)
    requires
        call_ensures(ParserV1::parse_actr_type, (&p, s, &names), r),
        !manufacturer.contains(':'),
        !name.contains(':'),
        version matches Some(v) ==> !v.contains(':'),
        s@ == manufacturer + seq![':'] + name + match version {
            Some(v) => seq![':'] + v,
            None => Seq::empty(),
        },
    ensures
        r is Ok <==> is_allowed(names@, manufacturer) && is_allowed(names@, name),
        r matches Ok(t) ==> t.manufacturer@ == manufacturer && t.name@ == name && t.version@
            == match version {
            Some(v) => v,
            None => Seq::empty(),
        },
        r matches Err(e) ==> {
            let wrong = if is_allowed(names@, manufacturer) {
                name
            } else {
                manufacturer
            };
            match e {
                ConfigError::NameNotChecked(n) => n@ == wrong && !names@.contains_key(wrong),
                ConfigError::InvalidActrType(m) => names@.contains_key(wrong) && m@ == (
                if is_allowed(names@, manufacturer) {
                    "Invalid type name '"@
                } else {
                    "Invalid manufacturer '"@
                }) + wrong + "' in '"@ + s@ + "': "@ + names@[wrong]->0@,
                _ => false,
            }
        },
{
    let w = s@;
    let a = manufacturer.len() as int;
    let b = a + 1 + name.len() as int;
    let len = w.len() as int;
    assert forall|i: int| 0 <= i < a implies w[i] != ':' by {
        assert(w[i] == manufacturer[i]);
        assert(manufacturer.contains(manufacturer[i]));
    }
    assert forall|i: int| a + 1 <= i < b implies w[i] != ':' by {
        assert(w[i] == name[i - a - 1]);
        assert(name.contains(name[i - a - 1]));
    }
    lemma_place(w, ':', 0, a);
    lemma_place(w, ':', a + 1, b);
    assert(w.subrange(0, a) =~= manufacturer);
    match version {
        Some(v) => {
            assert forall|i: int| b + 1 <= i < len implies w[i] != ':' by {
                assert(w[i] == v[i - b - 1]);
                assert(v.contains(v[i - b - 1]));
            }
            lemma_place(w, ':', b + 1, len);
            assert(w.subrange(a + 1, b) =~= name);
            assert(w.subrange(b + 1, len) =~= v);
        },
        None => {
            assert(w.subrange(a + 1, len) =~= name);
        },
    }
    assert(type_parts(w) == Some(
        ActrTypeView {
            manufacturer,
            name,
            version: match version {
                Some(v) => v,
                None => Seq::empty(),
            },
        },
    ));
}

/// A text without a colon, or with three and more, names no type.
pub proof fn a_type_has_two_or_three_parts(
    p: ParserV1,
    s: &str,
    names: NameVerdicts,
    r: ConfigResult<ActrType>,
    a: int,
    b: int,
    c: int,
)
    requires
        call_ensures(ParserV1::parse_actr_type, (&p, s, &names), r),
        !s@.contains(':') || (0 <= a < b < c < s@.len() && s@[a] == ':' && s@[b] == ':' && s@[c]
            == ':'),
    ensures
        r matches Err(ConfigError::InvalidActrType(m)) && m@ == "Invalid actor type '"@ + s@
            + "': expected 'manufacturer:name:version'"@,
{
    let w = s@;
    lemma_place_of(w, ':', 0);
    let x = text::place_of(w, ':', 0);
    if x < w.len() {
        assert(w.contains(w[x]));
        lemma_place_of(w, ':', x + 1);
        let y = text::place_of(w, ':', x + 1);
        if y < w.len() {
            lemma_place_of(w, ':', y + 1);
        }
    }
}

/// A service is named by what comes before the first colon, and pinned by what comes behind
/// it; without a colon nothing is named.
pub proof fn a_service_is_what_stands_around_the_first_colon(
    p: ParserV1,
    s: &str,
    r: ConfigResult<ServiceRef>,
)
    requires
        call_ensures(ParserV1::parse_service_ref, (&p, s), r),
    ensures
        r is Ok <==> s@.contains(':'),
        r matches Ok(x) ==> !x.name@.contains(':') && s@ == x.name@ + seq![':'] + x.fingerprint@,
        r matches Err(e) ==> (e matches ConfigError::InvalidActrType(m) && m@
            == "Invalid service reference '"@ + s@ + "': expected 'ServiceName:fingerprint'"@),
{
    let w = s@;
    lemma_place_of(w, ':', 0);
    let a = text::place_of(w, ':', 0);
    if a < w.len() {
        assert(w.contains(w[a]));
        assert(w =~= w.subrange(0, a) + seq![':'] + w.subrange(a + 1, w.len() as int));
    }
}

/// A permission is granted for "ALLOW" alone and denied for "DENY" alone; anything else is
/// refused.
pub proof fn only_allow_allows(
    idx: usize,
    written: &str,
    capital: &str,
    r: ConfigResult<Permission>,
)
    requires
        call_ensures(read_permission, (idx, written, capital), r),
    ensures
        r == Ok::<Permission, ConfigError>(Permission::Allow) <==> capital@ == "ALLOW"@,
        r == Ok::<Permission, ConfigError>(Permission::Deny) <==> capital@ == "DENY"@,
        r matches Err(e) ==> e is InvalidAcl,
{
    reveal_strlit("ALLOW");
    reveal_strlit("DENY");
    assert("ALLOW"@.len() != "DENY"@.len());
}

proof fn lemma_each_rule(
    list: Seq<Value>,
    n: int,
    self_realm_id: u32,
    names: Map<Seq<char>, Option<String>>,
)
    requires
        n >= 0,
    ensures
        rules_of(list, n, self_realm_id, names) matches Ok(rules) ==> rules.len() == n && forall|
            i: int,
        |
            0 <= i < n ==> rule_of(i as nat, #[trigger] list[i], self_realm_id, names) == Ok::<
                AclRuleView,
                ConfigErrorView,
            >(rules[i]),
        rules_of(list, n, self_realm_id, names) is Err ==> exists|i: int|
            0 <= i < n && rule_of(i as nat, #[trigger] list[i], self_realm_id, names) is Err,
    decreases n,
{
    if n > 0 {
        lemma_each_rule(list, n - 1, self_realm_id, names);
        if rules_of(list, n - 1, self_realm_id, names) is Ok && rules_of(
            list,
            n,
            self_realm_id,
            names,
        ) is Err {
            assert(rule_of((n - 1) as nat, list[n - 1], self_realm_id, names) is Err);
        }
    }
}

/// Access rules are read one by one, in their order: each allows or denies as its permission
/// says, callers of the type that it names, from the realm that it names. Without a realm, or
/// with "self", that is the actor's own; with "*" it is any.
pub proof fn each_rule_says_who_may_call_from_where(
    p: ParserV1,
    v: Value,
    self_realm_id: u32,
    names: NameVerdicts,
    r: ConfigResult<Acl>,
    rules: Option<&Value>,
    i: int,
    permission: Option<&Value>,
    caller: Option<&Value>,
    realm: Option<&Value>,
    type_text: &str,
    read_type: ConfigResult<ActrType>,
)
    requires
        call_ensures(ParserV1::parse_acl, (&p, &v, self_realm_id, &names), r),
        r is Ok,
        call_ensures(Value::get, (&v, "rules"), rules),
        0 <= i < r->Ok_0.rules@.len(),
        (rules matches Some(Value::Array(list)) && i < list@.len()) ==> {
            &&& call_ensures(Value::get, (&rules->0->Array_0@[i], "permission"), permission)
            &&& call_ensures(Value::get, (&rules->0->Array_0@[i], "type"), caller)
            &&& call_ensures(Value::get, (&rules->0->Array_0@[i], "realm"), realm)
        },
        caller matches Some(Value::Text(t)) ==> type_text@ == t@,
        call_ensures(ParserV1::parse_actr_type, (&p, type_text, &names), read_type),
    ensures
        rules matches Some(Value::Array(list)) && list@.len() == r->Ok_0.rules@.len(),
        permission matches Some(Value::Text(t)) && {
            let capital = text::in_capitals(t@);
            if r->Ok_0.rules@[i].permission is Allow {
                capital == "ALLOW"@
            } else {
                capital == "DENY"@
            }
        },
        caller matches Some(Value::Text(_)),
        read_type matches Ok(t) && t@ == r->Ok_0.rules@[i].from_type@,
        match realm {
            None => r->Ok_0.rules@[i].source_realm == Some(SourceRealm::RealmId(self_realm_id)),
            Some(Value::Text(t)) => if r->Ok_0.rules@[i].source_realm == Some(
                SourceRealm::AnyRealm(true),
            ) {
                t@ == "*"@
            } else {
                t@ == "self"@ && r->Ok_0.rules@[i].source_realm == Some(
                    SourceRealm::RealmId(self_realm_id),
                )
            },
            Some(Value::Integer(id)) => 0 <= *id <= u32::MAX ==> r->Ok_0.rules@[i].source_realm
                == Some(SourceRealm::RealmId(*id as u32)),
            Some(_) => false,
        },
{
    let list = v.spec_get("rules"@)->0->Array_0@;
    lemma_each_rule(list, list.len() as int, self_realm_id, names@);
    let views = rule_views(r->Ok_0.rules@);
    assert(views[i] == r->Ok_0.rules@[i]@);
    assert(rule_of(i as nat, list[i], self_realm_id, names@) == Ok::<
        AclRuleView,
        ConfigErrorView,
    >(views[i]));
    assert(r->Ok_0.rules@[i].from_type@ == views[i].from_type);
}

/// Access rules without a list of rules, or with one that is no table, are refused.
pub proof fn rules_must_be_a_list_of_tables(
    p: ParserV1,
    v: Value,
    self_realm_id: u32,
    names: NameVerdicts,
    r: ConfigResult<Acl>,
    rules: Option<&Value>,
    i: int,
    permission: Option<&Value>,
    caller: Option<&Value>,
)
    requires
        call_ensures(ParserV1::parse_acl, (&p, &v, self_realm_id, &names), r),
        call_ensures(Value::get, (&v, "rules"), rules),
        (rules matches Some(Value::Array(list)) && 0 <= i < list@.len()) ==> {
            &&& call_ensures(Value::get, (&rules->0->Array_0@[i], "permission"), permission)
            &&& call_ensures(Value::get, (&rules->0->Array_0@[i], "type"), caller)
        },
    ensures
        !(rules matches Some(Value::Array(_))) ==> (r matches Err(ConfigError::InvalidAcl(m)) && m@
            == "ACL must have 'rules' array"@),
        (rules matches Some(Value::Array(list)) && 0 <= i < list@.len()) && (!(permission matches
            Some(Value::Text(_))) || !(caller matches Some(Value::Text(_)))) ==> r is Err,
        (rules matches Some(Value::Array(list)) && list@.len() == 0) ==> (r matches Ok(acl)
            && acl.rules@.len() == 0),
{
    if let Some(Value::Array(l)) = v.spec_get("rules"@) {
        lemma_each_rule(l@, l@.len() as int, self_realm_id, names@);
        if 0 <= i < l@.len() && r is Ok {
            let views = rule_views(r->Ok_0.rules@);
            assert(rule_of(i as nat, l@[i], self_realm_id, names@) == Ok::<
                AclRuleView,
                ConfigErrorView,
            >(views[i]));
        }
    }
}

/// Peer-to-peer settings are refused exactly for a port range that does not begin below its
/// end. Servers are those that are named, STUN before TURN; the relay is forced only where that
/// is asked for; and ports and public addresses count only where a whole range is given.
pub proof fn peer_settings_are_as_they_are_written(
    p: ParserV1,
    raw: RawWebRtcConfig,
    r: ConfigResult<WebRtcConfig>,
    usual: WebRtcConfig,
)
    requires
        call_ensures(ParserV1::parse_webrtc, (&p, raw), r),
        call_ensures(<WebRtcConfig as Default>::default, (), usual),
    ensures
        r is Err <==> (raw.port_range_start matches Some(start) && raw.port_range_end matches Some(
            end,
        ) && end <= start),
        r matches Err(e) ==> (e matches ConfigError::InvalidConfig(m) && m@
            == "Invalid port range: start ("@ + text::decimal(raw.port_range_start->0 as nat)
            + ") must be less than end ("@ + text::decimal(raw.port_range_end->0 as nat) + ")"@),
        r matches Ok(c) ==> {
            let ranged = raw.port_range_start is Some && raw.port_range_end is Some;
            &&& c.ice_transport_policy is Relay <==> raw.force_relay
            &&& c.advanced.udp_ports is Some <==> ranged
            &&& ranged ==> c.advanced.udp_ports == Some(
                (raw.port_range_start->0, raw.port_range_end->0),
            ) && c.advanced.public_ips@ == raw.public_ips@
            &&& !ranged ==> c.advanced.public_ips@.len() == 0
            &&& raw.stun_urls@.len() == 0 && raw.turn_urls@.len() == 0 <==> c.ice_servers@.len()
                == 0
            &&& raw.stun_urls@.len() > 0 ==> c.ice_servers@[0].urls == raw.stun_urls
            &&& raw.turn_urls@.len() > 0 ==> c.ice_servers@.last().urls == raw.turn_urls
            &&& raw.stun_urls@.len() > 0 && raw.turn_urls@.len() > 0 <==> c.ice_servers@.len() == 2
            &&& c.ice_servers@.len() <= 2
            &&& forall|i: int|
                0 <= i < c.ice_servers@.len() ==> (#[trigger] c.ice_servers@[i]).username is None
                    && c.ice_servers@[i].credential is None
            &&& c.advanced.ice_host_acceptance_min_wait == match raw.ice_host_acceptance_min_wait {
                Some(wait) => wait,
                None => usual.advanced.ice_host_acceptance_min_wait,
            }
            &&& c.advanced.ice_srflx_acceptance_min_wait == match raw.ice_srflx_acceptance_min_wait {
                Some(wait) => wait,
                None => usual.advanced.ice_srflx_acceptance_min_wait,
            }
            &&& c.advanced.ice_prflx_acceptance_min_wait == match raw.ice_prflx_acceptance_min_wait {
                Some(wait) => wait,
                None => usual.advanced.ice_prflx_acceptance_min_wait,
            }
            &&& c.advanced.ice_relay_acceptance_min_wait == match raw.ice_relay_acceptance_min_wait {
                Some(wait) => wait,
                None => usual.advanced.ice_relay_acceptance_min_wait,
            }
        },
        usual.ice_servers@.len() == 0,
        usual.ice_transport_policy is All,
        usual.advanced.udp_ports is None,
        usual.advanced.public_ips@.len() == 0,
        usual.advanced.ice_host_acceptance_min_wait < usual.advanced.ice_srflx_acceptance_min_wait,
        usual.advanced.ice_srflx_acceptance_min_wait
            < usual.advanced.ice_prflx_acceptance_min_wait,
        usual.advanced.ice_prflx_acceptance_min_wait
            < usual.advanced.ice_relay_acceptance_min_wait,
{
}

/// What is said of logging and tracing counts. Otherwise messages from "info" on are logged,
/// nothing is traced, and traces go to the usual place under the package's name.
pub proof fn observability_is_as_written_or_quiet(
    p: ParserV1,
    raw: RawObservabilityConfig,
    package: PackageInfo,
    c: ObservabilityConfig,
)
    requires
        call_ensures(ParserV1::parse_observability, (&p, raw, &package), c),
    ensures
        c.filter_level@ == (if raw.filter_level is Some {
            raw.filter_level->0@
        } else {
            "info"@
        }),
        c.tracing_enabled <==> raw.tracing_enabled == Some(true),
        c.tracing_endpoint@ == (if raw.tracing_endpoint is Some {
            raw.tracing_endpoint->0@
        } else {
            "http://localhost:4317"@
        }),
        c.tracing_service_name@ == (if raw.tracing_service_name is Some {
            raw.tracing_service_name->0@
        } else {
            package.name@
        }),
{
}

/// The signaling server must be named, and then the realm.
pub proof fn the_server_and_the_realm_must_be_named(
    p: ParserV1,
    raw: RawConfig,
    r: ConfigResult<()>,
)
    requires
        call_ensures(ParserV1::validate_required_fields, (&p, &raw), r),
    ensures
        r is Ok <==> raw.system.signaling.url is Some && raw.system.deployment.realm_id is Some,
        r matches Err(e) ==> (e matches ConfigError::MissingField(f) && f@ == (
        if raw.system.signaling.url is None {
            "system.signaling.url"@
        } else {
            "system.deployment.realm"@
        })),
{
}

/// A configuration that was read has each part as reading that part gives it, and what is not
/// written counts as usual: others find the actor unless it says that they do not.
pub proof fn a_read_configuration_is_its_parts(
    p: ParserV1,
    raw: RawConfig,
    reads: Vec<ExportRead>,
    names: NameVerdicts,
    r: ConfigResult<Config>,
    i: int,
    required: ConfigResult<()>,
    acl: ConfigResult<Acl>,
    webrtc: ConfigResult<WebRtcConfig>,
)
    requires
        call_ensures(ParserV1::parse, (&p, raw, reads, &names), r),
        r is Ok,
        call_ensures(ParserV1::validate_required_fields, (&p, &raw), required),
        raw.acl is Some && raw.system.deployment.realm_id is Some ==> call_ensures(
            ParserV1::parse_acl,
            (&p, &raw.acl->0, raw.system.deployment.realm_id->0, &names),
            acl,
        ),
        call_ensures(ParserV1::parse_webrtc, (&p, raw.system.webrtc), webrtc),
    ensures
        required is Ok,
        webrtc is Ok,
        raw.system.deployment.realm_id == Some(r->Ok_0.realm.realm_id),
        encoding::url_of(raw.system.signaling.url->0@) == Ok::<Seq<char>, Seq<char>>(
            r->Ok_0.signaling_url@,
        ),
        r->Ok_0.visible_in_discovery <==> raw.system.discovery.visible != Some(false),
        raw.acl is None <==> r->Ok_0.acl is None,
        raw.acl is Some ==> acl is Ok && rule_views(acl->Ok_0.rules@) == rule_views(
            r->Ok_0.acl->0.rules@,
        ),
        r->Ok_0.mailbox_path == raw.system.storage.mailbox_path,
        r->Ok_0.tags == raw.package.tags,
        r->Ok_0.scripts == raw.scripts,
        r->Ok_0.websocket_listen_port == raw.system.websocket.listen_port,
        r->Ok_0.websocket_advertised_host == raw.system.websocket.advertised_host,
        r->Ok_0.package.name == raw.package.name,
        r->Ok_0.package.actr_type.manufacturer == raw.package.actr_type.manufacturer,
        r->Ok_0.package.actr_type.name == raw.package.actr_type.name,
        r->Ok_0.package.actr_type.version == raw.package.actr_type.version,
        r->Ok_0.package.description == raw.package.description,
        r->Ok_0.package.license == raw.package.license,
        raw.package.authors is Some ==> r->Ok_0.package.authors@ == raw.package.authors->0@,
        raw.package.authors is None ==> r->Ok_0.package.authors@.len() == 0,
        is_allowed(names@, raw.package.actr_type.manufacturer@),
        is_allowed(names@, raw.package.actr_type.name@),
        r->Ok_0.exports@.len() == raw.exports@.len(),
        0 <= i < raw.exports@.len() ==> r->Ok_0.exports@[i].path == reads@[i].path
            && reads@[i].content == Ok::<String, String>(r->Ok_0.exports@[i].content),
        raw.config_dir is None ==> r->Ok_0.config_dir@ == p.base_dir@,
        raw.config_dir is Some && p.base_dir@.len() == 0 ==> r->Ok_0.config_dir@
            == raw.config_dir->0@,
        r->Ok_0.webrtc.ice_transport_policy == webrtc->Ok_0.ice_transport_policy,
        r->Ok_0.webrtc.advanced.udp_ports == webrtc->Ok_0.advanced.udp_ports,
        r->Ok_0.webrtc.advanced.public_ips@ == webrtc->Ok_0.advanced.public_ips@,
        r->Ok_0.webrtc.ice_servers@.len() == webrtc->Ok_0.ice_servers@.len(),
        r->Ok_0.observability.filter_level@ == or_text(
            raw.system.observability.filter_level,
            "info"@,
        ),
        r->Ok_0.observability.tracing_service_name@ == or_text(
            raw.system.observability.tracing_service_name,
            raw.package.name@,
        ),
{
}

/// A configuration is refused for what is wrong with one of its parts, and for nothing else:
/// where every part can be read, so can the whole.
pub proof fn a_configuration_is_read_if_every_part_is(
    p: ParserV1,
    raw: RawConfig,
    reads: Vec<ExportRead>,
    names: NameVerdicts,
    r: ConfigResult<Config>,
    required: ConfigResult<()>,
    exports: ConfigResult<Vec<ProtoFile>>,
    own_realm: Realm,
    dependencies: ConfigResult<Vec<Dependency>>,
    acl: ConfigResult<Acl>,
    webrtc: ConfigResult<WebRtcConfig>,
)
    requires
        call_ensures(ParserV1::parse, (&p, raw, reads, &names), r),
        call_ensures(ParserV1::validate_required_fields, (&p, &raw), required),
        call_ensures(ParserV1::parse_exports, (&p, reads), exports),
        call_ensures(
            ParserV1::parse_dependencies,
            (&p, &raw.dependencies, &own_realm, &names),
            dependencies,
        ),
        raw.acl is Some && raw.system.deployment.realm_id is Some ==> call_ensures(
            ParserV1::parse_acl,
            (&p, &raw.acl->0, raw.system.deployment.realm_id->0, &names),
            acl,
        ),
        call_ensures(ParserV1::parse_webrtc, (&p, raw.system.webrtc), webrtc),
    ensures
        r is Ok <==> {
            &&& required is Ok
            &&& is_allowed(names@, raw.package.actr_type.manufacturer@)
            &&& is_allowed(names@, raw.package.actr_type.name@)
            &&& exports is Ok
            &&& dependencies is Ok
            &&& encoding::url_of(raw.system.signaling.url->0@) is Ok
            &&& raw.acl is None || acl is Ok
            &&& webrtc is Ok
        },
        required matches Err(e) ==> (r matches Err(f) && f@ == e@),
        required is Ok && is_allowed(names@, raw.package.actr_type.manufacturer@) && is_allowed(
            names@,
            raw.package.actr_type.name@,
        ) ==> {
            &&& exports matches Err(e) ==> (r matches Err(f) && f@ == e@)
            &&& exports is Ok ==> {
                &&& dependencies matches Err(e) ==> (r matches Err(f) && f@ == e@)
                &&& dependencies is Ok ==> match encoding::url_of(raw.system.signaling.url->0@) {
                    Err(words) => r matches Err(ConfigError::InvalidUrl(m)) && m@ == words,
                    Ok(_) => if raw.acl is Some && acl is Err {
                        r matches Err(f) && f@ == acl->Err_0@
                    } else {
                        webrtc matches Err(e) ==> (r matches Err(f) && f@ == e@)
                    },
                }
            }
        },
{
}

proof fn lemma_first_unread_export(reads: Seq<ExportRead>, from: int, i: int)
    requires
        0 <= from <= i <= reads.len(),
        forall|k: int| from <= k < i ==> (#[trigger] reads[k]).content is Ok,
        i < reads.len() ==> reads[i].content is Err,
    ensures
        exports_error(reads, from) == if i < reads.len() {
            Some(ConfigErrorView::ProtoFileNotFound(reads[i].path@, reads[i].content->Err_0@))
        } else {
            None
        },
    decreases i - from,
{
    if from < i {
        assert(reads[from].content is Ok);
        lemma_first_unread_export(reads, from + 1, i);
    }
}

/// Exported files are kept with their paths and contents, in their order. If one could not be
/// read, the first such is named with the reason.
pub proof fn exports_fail_with_the_first_unread_file(
    p: ParserV1,
    reads: Vec<ExportRead>,
    r: ConfigResult<Vec<ProtoFile>>,
    i: int,
    k: int,
)
    requires
        call_ensures(ParserV1::parse_exports, (&p, reads), r),
        0 <= i <= reads@.len(),
        forall|j: int| 0 <= j < i ==> (#[trigger] reads@[j]).content is Ok,
        i < reads@.len() ==> reads@[i].content is Err,
    ensures
        r is Ok <==> i == reads@.len(),
        r matches Ok(v) ==> v@.len() == reads@.len() && (0 <= k < v@.len() ==> v@[k].path
            == reads@[k].path && reads@[k].content == Ok::<String, String>(v@[k].content)),
        r matches Err(e) ==> (e matches ConfigError::ProtoFileNotFound(path, why) && path@
            == reads@[i].path@ && why@ == reads@[i].content->Err_0@),
{
    lemma_first_unread_export(reads@, 0, i);
}

/// Paths in a configuration are seen from its directory: one that is rooted stays as it is,
/// and so does every path where the directory is not named. Exported files are seen like any
/// other.
pub proof fn paths_are_seen_from_the_directory(
    p: ParserV1,
    name: &str,
    r: String,
    exports: Vec<String>,
    v: Vec<String>,
    i: int,
)
    requires
        call_ensures(ParserV1::resolve, (&p, name), r),
        call_ensures(ParserV1::export_paths, (&p, &exports), v),
        0 <= i < exports@.len(),
        exports@[i]@ == name@,
        path::is_portable(p.base_dir@),
        path::is_portable(name@),
        name@.len() > 0,
    ensures
        v@.len() == exports@.len(),
        p.base_dir@.len() == 0 || name@[0] == '/' ==> r@ == name@ && v@[i]@ == name@,
        p.base_dir@.len() > 0 && name@[0] != '/' ==> r@.len() > name@.len() && v@[i]@.len()
            > name@.len() && p.base_dir@.is_prefix_of(r@) && p.base_dir@.is_prefix_of(v@[i]@)
            && r@.skip(r@.len() - name@.len()) == name@ && v@[i]@.skip(
            v@[i]@.len() - name@.len(),
        ) == name@,
{
    assert(path::seen_from(p.base_dir@, exports@[i]@, v@[i]@));
    if p.base_dir@.len() > 0 && name@[0] != '/' {
        assert(r@.skip(r@.len() - name@.len()) =~= name@);
        assert(v@[i]@.skip(v@[i]@.len() - name@.len()) =~= name@);
    }
}

/// A parser sees paths from the directory that its configuration lies in: of a path written as a
/// directory, a slash and a name that is the directory, and of a mere name it is the present one.
pub proof fn a_parser_stands_in_the_directory_of_its_file(
    config_path: &str,
    p: ParserV1,
    dir: Seq<char>,
    name: Seq<char>,
)
    requires
        call_ensures(ParserV1::new, (config_path,), p),
        !name.contains('/'),
        name.len() > 0,
    ensures
        path::is_direct(config_path@) ==> {
            &&& dir.len() > 0 && config_path@ == dir + seq!['/'] + name ==> p.base_dir@ == dir
            &&& config_path@ == seq!['/'] + name ==> p.base_dir@ == seq!['/']
            &&& config_path@ == name ==> p.base_dir@.len() == 0
        },
        config_path@.len() == 0 || config_path@ == seq!['/'] ==> p.base_dir@ == "."@,
        path::is_portable(config_path@) && path::components(config_path@).len() > 1
            ==> path::components(config_path@).last() == seq!['/'] || path::components(p.base_dir@)
            == path::components(config_path@).drop_last(),
{
    path::lemma_last_name(config_path@, name);
    if dir.len() > 0 && config_path@ == dir + seq!['/'] + name {
        assert(config_path@.subrange(config_path@.len() - name.len(), config_path@.len() as int)
            =~= name);
        assert(config_path@.take(dir.len() as int) =~= dir);
    }
    if config_path@ == seq!['/'] + name {
        assert(config_path@.subrange(1, config_path@.len() as int) =~= name);
        assert(config_path@.take(1) =~= seq!['/']);
    }
    if config_path@ == name {
        assert(config_path@.subrange(0, config_path@.len() as int) =~= name);
    }
}

/// The first rule that cannot be read is told by its place in the list, and by what is wrong with
/// it: it is no table, does not say what is permitted or to whom, or names a permission or a realm
/// that there is not.
pub proof fn a_wrong_rule_is_told_by_its_place(
    p: ParserV1,
    v: Value,
    front: Value,
    self_realm_id: u32,
    names: NameVerdicts,
    before: ConfigResult<Acl>,
    r: ConfigResult<Acl>,
    rules: Option<&Value>,
    front_rules: Option<&Value>,
    i: int,
    permission: Option<&Value>,
    caller: Option<&Value>,
    realm: Option<&Value>,
    capital: &str,
    idx: usize,
    permitted: ConfigResult<Permission>,
    named: ConfigResult<ActrType>,
    written: &str,
    name: &str,
)
    requires
        call_ensures(ParserV1::parse_acl, (&p, &v, self_realm_id, &names), r),
        call_ensures(ParserV1::parse_acl, (&p, &front, self_realm_id, &names), before),
        call_ensures(Value::get, (&v, "rules"), rules),
        call_ensures(Value::get, (&front, "rules"), front_rules),
        rules matches Some(Value::Array(list)) && 0 <= i < list@.len() && (
        front_rules matches Some(Value::Array(some)) && some@ == list@.take(i)),
        before is Ok,
        i == idx,
        call_ensures(Value::get, (&rules->0->Array_0@[i], "permission"), permission),
        call_ensures(Value::get, (&rules->0->Array_0@[i], "type"), caller),
        call_ensures(Value::get, (&rules->0->Array_0@[i], "realm"), realm),
        permission matches Some(Value::Text(t)) ==> written@ == t@,
        caller matches Some(Value::Text(t)) ==> name@ == t@,
        capital@ == text::in_capitals(written@),
        call_ensures(read_permission, (idx, written, capital), permitted),
        call_ensures(ParserV1::parse_actr_type, (&p, name, &names), named),
    ensures
        ({
            let place = "ACL rule "@ + text::decimal(idx as nat);
            let table = rules->0->Array_0@[i] is Table;
            let permits = permission matches Some(Value::Text(_));
            let tells = caller matches Some(Value::Text(_));
            let wrong = r->Err_0->InvalidAcl_0@;
            &&& !table ==> (r matches Err(e) && e is InvalidAcl) && wrong == place
                + " must be a table"@
            &&& table && !permits ==> (r matches Err(e) && e is InvalidAcl) && wrong == place
                + " missing 'permission' field"@
            &&& table && permits && permitted is Err ==> (r matches Err(e) && e is InvalidAcl)
                && wrong == place + (": invalid permission '"@ + written@
                + "', expected 'ALLOW' or 'DENY'"@)
            &&& table && permits && permitted is Ok && !tells ==> (r matches Err(e)
                && e is InvalidAcl) && wrong == place + " missing 'type' field"@
            &&& table && permits && permitted is Ok && tells && named is Err ==> r is Err
                && r->Err_0@ == named->Err_0@
            &&& table && permits && permitted is Ok && tells && named is Ok ==> {
                &&& (realm matches Some(Value::Text(s)) && s@ != "self"@ && s@ != "*"@) ==> (
                r matches Err(e) && e is InvalidAcl) && wrong == place + (": invalid realm '"@
                    + realm->0->Text_0@ + "', expected 'self', '*', or an integer"@)
                &&& realm is Some && !(realm->0 is Text) && !(realm->0 is Integer) ==> (
                r matches Err(e) && e is InvalidAcl) && wrong == place
                    + ": realm must be 'self', '*', or an integer"@
            }
        }),
{
    let list = rules->0->Array_0@;
    let some = front_rules->0->Array_0@;
    lemma_same_rules(list, some, i, self_realm_id, names@);
    let one = rule_of(i as nat, list[i], self_realm_id, names@);
    assert(rules_of(list, i, self_realm_id, names@) is Ok);
    if one is Err {
        assert(rules_of(list, i + 1, self_realm_id, names@) == Err::<
            Seq<AclRuleView>,
            ConfigErrorView,
        >(one->Err_0));
        lemma_rules_fail(list, i + 1, list.len() as int, self_realm_id, names@);
    }
}

proof fn lemma_same_rules(
    a: Seq<Value>,
    b: Seq<Value>,
    n: int,
    self_realm_id: u32,
    names: Map<Seq<char>, Option<String>>,
)
    requires
        0 <= n <= a.len(),
        n <= b.len(),
        forall|k: int| 0 <= k < n ==> a[k] == b[k],
    ensures
        rules_of(a, n, self_realm_id, names) == rules_of(b, n, self_realm_id, names),
    decreases n,
{
    if n > 0 {
        lemma_same_rules(a, b, n - 1, self_realm_id, names);
    }
}

/// Where the server and the realm are named, a package whose manufacturer or name is not allowed
/// is refused before anything else, in these words; and one whose names have not been judged
/// says which is to be.
pub proof fn a_package_is_refused_for_its_names(
    p: ParserV1,
    raw: RawConfig,
    reads: Vec<ExportRead>,
    names: NameVerdicts,
    r: ConfigResult<Config>,
)
    requires
        are_reads_of(p.base_dir@, raw.exports@, reads@),
        raw.system.signaling.url is Some,
        raw.system.deployment.realm_id is Some,
        call_ensures(ParserV1::parse, (&p, raw, reads, &names), r),
    ensures
        ({
            let manufacturer = raw.package.actr_type.manufacturer@;
            let name = raw.package.actr_type.name@;
            let wrong = if is_allowed(names@, manufacturer) {
                name
            } else {
                manufacturer
            };
            !is_allowed(names@, wrong) ==> (r matches Err(e) && match e {
                ConfigError::NameNotChecked(n) => n@ == wrong && !names@.contains_key(wrong),
                ConfigError::InvalidActrType(m) => names@.contains_key(wrong) && m@ == (
                if is_allowed(names@, manufacturer) {
                    "Invalid actor type name '"@
                } else {
                    "Invalid manufacturer name '"@
                }) + wrong + "': "@ + names@[wrong]->0@,
                _ => false,
            })
        }),
{
}

}
