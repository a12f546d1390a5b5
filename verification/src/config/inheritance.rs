//! Configurations that build on others.
//!
//! A configuration overrides the one it builds on: what it sets counts, and what it leaves
//! out is taken from there. What the package is, it says for itself.
use crate::config::error::{ConfigError, ConfigErrorView, ConfigResult};
use crate::config::raw::{
    RawConfig, RawDependency, RawDeploymentConfig, RawDiscoveryConfig, RawObservabilityConfig,
    RawSignalingConfig, RawStorageConfig, RawSystemConfig, RawWebRtcConfig, RawWebSocketConfig,
};
use crate::config::value::Value;
use crate::text_table::TextTable;
use vstd::prelude::*;

verus! {

/// What is set, by the child if it sets it and by the parent otherwise.
pub open spec fn either<T>(child: Option<T>, parent: Option<T>) -> Option<T> {
    match child {
        Some(_) => child,
        None => parent,
    }
}

/// The child's list, unless it is empty.
pub open spec fn either_list(child: Vec<String>, parent: Vec<String>) -> Vec<String> {
    if child@.len() == 0 {
        parent
    } else {
        child
    }
}

/// Settings of a child that builds on a parent.
pub open spec fn merged_system(parent: RawSystemConfig, child: RawSystemConfig) -> RawSystemConfig {
    RawSystemConfig {
        signaling: RawSignalingConfig { url: either(child.signaling.url, parent.signaling.url) },
        deployment: RawDeploymentConfig {
            realm_id: either(child.deployment.realm_id, parent.deployment.realm_id),
        },
        discovery: RawDiscoveryConfig {
            visible: either(child.discovery.visible, parent.discovery.visible),
        },
        storage: RawStorageConfig {
            mailbox_path: either(child.storage.mailbox_path, parent.storage.mailbox_path),
        },
        webrtc: merged_webrtc(parent.webrtc, child.webrtc),
        websocket: RawWebSocketConfig {
            listen_port: either(child.websocket.listen_port, parent.websocket.listen_port),
            advertised_host: either(
                child.websocket.advertised_host,
                parent.websocket.advertised_host,
            ),
        },
        observability: RawObservabilityConfig {
            filter_level: either(child.observability.filter_level, parent.observability.filter_level),
            tracing_enabled: either(
                child.observability.tracing_enabled,
                parent.observability.tracing_enabled,
            ),
            tracing_endpoint: either(
                child.observability.tracing_endpoint,
                parent.observability.tracing_endpoint,
            ),
            tracing_service_name: either(
                child.observability.tracing_service_name,
                parent.observability.tracing_service_name,
            ),
        },
    }
}

/// Peer-to-peer settings of a child that builds on a parent. Either can force the relay.
pub open spec fn merged_webrtc(parent: RawWebRtcConfig, child: RawWebRtcConfig) -> RawWebRtcConfig {
    RawWebRtcConfig {
        stun_urls: either_list(child.stun_urls, parent.stun_urls),
        turn_urls: either_list(child.turn_urls, parent.turn_urls),
        force_relay: child.force_relay || parent.force_relay,
        ice_host_acceptance_min_wait: either(
            child.ice_host_acceptance_min_wait,
            parent.ice_host_acceptance_min_wait,
        ),
        ice_srflx_acceptance_min_wait: either(
            child.ice_srflx_acceptance_min_wait,
            parent.ice_srflx_acceptance_min_wait,
        ),
        ice_prflx_acceptance_min_wait: either(
            child.ice_prflx_acceptance_min_wait,
            parent.ice_prflx_acceptance_min_wait,
        ),
        ice_relay_acceptance_min_wait: either(
            child.ice_relay_acceptance_min_wait,
            parent.ice_relay_acceptance_min_wait,
        ),
        port_range_start: either(child.port_range_start, parent.port_range_start),
        port_range_end: either(child.port_range_end, parent.port_range_end),
        public_ips: either_list(child.public_ips, parent.public_ips),
    }
}

fn or_else<T>(child: Option<T>, parent: Option<T>) -> (r: Option<T>)
    ensures
        r == either(child, parent),
{
    match child {
        Some(v) => Some(v),
        None => parent,
    }
}

fn or_list(child: Vec<String>, parent: Vec<String>) -> (r: Vec<String>)
    ensures
        r == either_list(child, parent),
{
    if child.len() == 0 {
        parent
    } else {
        child
    }
}

/// Merges the settings of a child into those of the parent it builds on.
pub fn merge_system_config(parent: RawSystemConfig, child: RawSystemConfig) -> (r: RawSystemConfig)
    ensures
        r == merged_system(parent, child),
{
    RawSystemConfig {
        signaling: RawSignalingConfig { url: or_else(child.signaling.url, parent.signaling.url) },
        deployment: RawDeploymentConfig {
            realm_id: or_else(child.deployment.realm_id, parent.deployment.realm_id),
        },
        discovery: RawDiscoveryConfig {
            visible: or_else(child.discovery.visible, parent.discovery.visible),
        },
        storage: RawStorageConfig {
            mailbox_path: or_else(child.storage.mailbox_path, parent.storage.mailbox_path),
        },
        webrtc: RawWebRtcConfig {
            stun_urls: or_list(child.webrtc.stun_urls, parent.webrtc.stun_urls),
            turn_urls: or_list(child.webrtc.turn_urls, parent.webrtc.turn_urls),
            force_relay: child.webrtc.force_relay || parent.webrtc.force_relay,
            ice_host_acceptance_min_wait: or_else(
                child.webrtc.ice_host_acceptance_min_wait,
                parent.webrtc.ice_host_acceptance_min_wait,
            ),
            ice_srflx_acceptance_min_wait: or_else(
                child.webrtc.ice_srflx_acceptance_min_wait,
                parent.webrtc.ice_srflx_acceptance_min_wait,
            ),
            ice_prflx_acceptance_min_wait: or_else(
                child.webrtc.ice_prflx_acceptance_min_wait,
                parent.webrtc.ice_prflx_acceptance_min_wait,
            ),
            ice_relay_acceptance_min_wait: or_else(
                child.webrtc.ice_relay_acceptance_min_wait,
                parent.webrtc.ice_relay_acceptance_min_wait,
            ),
            port_range_start: or_else(child.webrtc.port_range_start, parent.webrtc.port_range_start),
            port_range_end: or_else(child.webrtc.port_range_end, parent.webrtc.port_range_end),
            public_ips: or_list(child.webrtc.public_ips, parent.webrtc.public_ips),
        },
        websocket: RawWebSocketConfig {
            listen_port: or_else(child.websocket.listen_port, parent.websocket.listen_port),
            advertised_host: or_else(
                child.websocket.advertised_host,
                parent.websocket.advertised_host,
            ),
        },
        observability: RawObservabilityConfig {
            filter_level: or_else(
                child.observability.filter_level,
                parent.observability.filter_level,
            ),
            tracing_enabled: or_else(
                child.observability.tracing_enabled,
                parent.observability.tracing_enabled,
            ),
            tracing_endpoint: or_else(
                child.observability.tracing_endpoint,
                parent.observability.tracing_endpoint,
            ),
            tracing_service_name: or_else(
                child.observability.tracing_service_name,
                parent.observability.tracing_service_name,
            ),
        },
    }
}

/// `r` is `child` built on `parent`.
pub open spec fn is_merged(parent: RawConfig, child: RawConfig, r: RawConfig) -> bool {
    &&& r.edition == child.edition
    &&& r.inherit is None
    &&& r.config_dir == child.config_dir
    &&& r.package == child.package
    &&& r.exports@ == parent.exports@ + child.exports@
    &&& r.dependencies@ == parent.dependencies@.union_prefer_right(child.dependencies@)
    &&& r.system == merged_system(parent.system, child.system)
    &&& r.acl == either(child.acl, parent.acl)
    &&& r.scripts@ == parent.scripts@.union_prefer_right(child.scripts@)
}

/// Builds a child on the parent whose own parents are merged in.
pub fn merge_inheritance(parent: RawConfig, child: RawConfig) -> (r: RawConfig)
    ensures
        is_merged(parent, child, r),
{
    let mut exports: Vec<String> = parent.exports;
    let mut more: Vec<String> = child.exports;
    exports.append(&mut more);
    let mut dependencies = parent.dependencies;
    dependencies.extend(child.dependencies);
    let mut scripts = parent.scripts;
    scripts.extend(child.scripts);
    RawConfig {
        edition: child.edition,
        inherit: None,
        config_dir: child.config_dir,
        package: child.package,
        exports,
        dependencies,
        system: merge_system_config(parent.system, child.system),
        acl: or_else(child.acl, parent.acl),
        scripts,
    }
}

/// A configuration and those it builds on, each after the one that builds on it.
#[derive(Debug)]
pub struct Inheritance {
    pub chain: Vec<RawConfig>,
}

/// The exports of the configurations from `i` on: those that are built on come first.
pub open spec fn chain_exports(chain: Seq<RawConfig>, i: int) -> Seq<String>
    decreases chain.len() - i,
{
    if i >= chain.len() {
        Seq::empty()
    } else {
        chain_exports(chain, i + 1) + chain[i].exports@
    }
}

/// The dependencies of the configurations from `i` on.
pub open spec fn chain_dependencies(chain: Seq<RawConfig>, i: int) -> Map<Seq<char>, RawDependency>
    decreases chain.len() - i,
{
    if i >= chain.len() {
        Map::empty()
    } else {
        chain_dependencies(chain, i + 1).union_prefer_right(chain[i].dependencies@)
    }
}

/// The commands of the configurations from `i` on.
pub open spec fn chain_scripts(chain: Seq<RawConfig>, i: int) -> Map<Seq<char>, String>
    decreases chain.len() - i,
{
    if i >= chain.len() {
        Map::empty()
    } else {
        chain_scripts(chain, i + 1).union_prefer_right(chain[i].scripts@)
    }
}

/// The access rules of the configurations from `i` on: the first that has any.
pub open spec fn chain_acl(chain: Seq<RawConfig>, i: int) -> Option<Value>
    decreases chain.len() - i,
{
    if i >= chain.len() {
        None
    } else {
        either(chain[i].acl, chain_acl(chain, i + 1))
    }
}

/// The settings of the configurations from `i` on.
pub open spec fn chain_system(chain: Seq<RawConfig>, i: int) -> RawSystemConfig
    decreases chain.len() - i,
{
    if i >= chain.len() - 1 {
        chain[i].system
    } else {
        merged_system(chain_system(chain, i + 1), chain[i].system)
    }
}

/// `r` is the configuration at `i` built on all that follow.
pub open spec fn is_chain_merged(chain: Seq<RawConfig>, i: int, r: RawConfig) -> bool {
    &&& r.edition == chain[i].edition
    &&& r.config_dir == chain[i].config_dir
    &&& r.package == chain[i].package
    &&& r.exports@ == chain_exports(chain, i)
    &&& r.dependencies@ == chain_dependencies(chain, i)
    &&& r.system == chain_system(chain, i)
    &&& r.acl == chain_acl(chain, i)
    &&& r.scripts@ == chain_scripts(chain, i)
}

impl Inheritance {
    /// There is a configuration to begin with.
    pub open spec fn wf(&self) -> bool {
        self.chain@.len() > 0
    }

    /// The last configuration builds on no other.
    pub open spec fn is_complete(&self) -> bool {
        self.wf() && self.chain@.last().inherit is None
    }

    /// A configuration whose parents have not been loaded.
    pub fn new(child: RawConfig) -> (r: Self)
        ensures
            r.wf(),
            r.chain@ == seq![child],
    {
        let mut chain: Vec<RawConfig> = Vec::new();
        chain.push(child);
        assert(chain@ =~= seq![child]);
        Inheritance { chain }
    }

    /// The file that is to be loaded next, as it is written, if there is one.
    pub fn missing_parent(&self) -> (r: Option<&String>)
        requires
            self.wf(),
        ensures
            match r {
                Some(path) => self.chain@.last().inherit == Some(*path),
                None => self.is_complete(),
            },
    {
        match &self.chain[self.chain.len() - 1].inherit {
            Some(path) => Some(path),
            None => None,
        }
    }

    /// Takes the parent that was loaded. It must be written in the same format.
    pub fn parent_loaded(&mut self, parent: RawConfig) -> (r: ConfigResult<()>)
        requires
            old(self).wf(),
        ensures
            final(self).wf(),
            if parent.edition == old(self).chain@.last().edition {
                r is Ok && final(self).chain@ == old(self).chain@.push(parent)
            } else {
                &&& final(self).chain@ == old(self).chain@
                &&& r matches Err(e)
                &&& e@ == ConfigErrorView::EditionMismatch(
                    parent.edition,
                    old(self).chain@.last().edition,
                )
            },
    {
        let child: u32 = self.chain[self.chain.len() - 1].edition;
        if parent.edition != child {
            return Err(ConfigError::EditionMismatch { parent: parent.edition, child });
        }
        self.chain.push(parent);
        Ok(())
    }

    /// Builds the configuration on all that it builds on.
    pub fn merged(self) -> (r: RawConfig)
        requires
            self.is_complete(),
        ensures
            r.inherit is None,
            is_chain_merged(self.chain@, 0, r),
    {
        let ghost all = self.chain@;
        let mut chain: Vec<RawConfig> = self.chain;
        let mut r: RawConfig = chain.pop().unwrap();
        let ghost last = all.len() - 1;
        proof {
            assert(chain_exports(all, last + 1) =~= Seq::<String>::empty());
            assert(chain_exports(all, last) =~= r.exports@);
            assert(chain_dependencies(all, last + 1) =~= Map::<Seq<char>, RawDependency>::empty());
            assert(chain_dependencies(all, last) =~= r.dependencies@);
            assert(chain_scripts(all, last + 1) =~= Map::<Seq<char>, String>::empty());
            assert(chain_scripts(all, last) =~= r.scripts@);
            assert(chain_acl(all, last + 1) is None);
            assert(chain_acl(all, last) == r.acl);
        }
        while chain.len() > 0
            invariant
                chain@.len() < all.len(),
                forall|i: int| 0 <= i < chain@.len() ==> chain@[i] == all[i],
                r.inherit is None,
                is_chain_merged(all, chain@.len() as int, r),
            decreases chain@.len(),
        {
            let ghost n = chain@.len() - 1;
            if let Some(child) = chain.pop() {
                assert(child == all[n]);
                r = merge_inheritance(r, child);
            }
        }
        r
    }
}

// ── Laws ──────────────────────────────────────────────────────────────────────

/// What a child sets counts, whatever its parent sets; what it leaves out is its parent's.
pub proof fn the_child_comes_first(parent: RawSystemConfig, child: RawSystemConfig)
    ensures
        ({
            let m = merged_system(parent, child);
            &&& child.signaling.url is Some ==> m.signaling.url == child.signaling.url
            &&& child.signaling.url is None ==> m.signaling.url == parent.signaling.url
            &&& child.deployment.realm_id is Some ==> m.deployment == child.deployment
            &&& child.deployment.realm_id is None ==> m.deployment == parent.deployment
            &&& child.discovery.visible is Some ==> m.discovery == child.discovery
            &&& child.discovery.visible is None ==> m.discovery == parent.discovery
            &&& child.storage.mailbox_path is Some ==> m.storage == child.storage
            &&& child.storage.mailbox_path is None ==> m.storage == parent.storage
            &&& child.webrtc.stun_urls@.len() > 0 ==> m.webrtc.stun_urls == child.webrtc.stun_urls
            &&& child.webrtc.stun_urls@.len() == 0 ==> m.webrtc.stun_urls == parent.webrtc.stun_urls
            &&& child.websocket.listen_port is Some ==> m.websocket.listen_port
                == child.websocket.listen_port
            &&& child.observability.filter_level is Some ==> m.observability.filter_level
                == child.observability.filter_level
        }),
{
}

proof fn lemma_webrtc_associative(a: RawWebRtcConfig, b: RawWebRtcConfig, c: RawWebRtcConfig)
    ensures
        merged_webrtc(merged_webrtc(a, b), c) == merged_webrtc(a, merged_webrtc(b, c)),
{
    let l = merged_webrtc(merged_webrtc(a, b), c);
    let r = merged_webrtc(a, merged_webrtc(b, c));
    assert(l.stun_urls == r.stun_urls);
    assert(l.turn_urls == r.turn_urls);
    assert(l.public_ips == r.public_ips);
}

/// It does not matter whether a chain of three is merged from its head or from its end.
pub proof fn merging_is_associative(a: RawSystemConfig, b: RawSystemConfig, c: RawSystemConfig)
    ensures
        merged_system(merged_system(a, b), c) == merged_system(a, merged_system(b, c)),
{
    lemma_webrtc_associative(a.webrtc, b.webrtc, c.webrtc);
    let l = merged_system(merged_system(a, b), c);
    let r = merged_system(a, merged_system(b, c));
    assert(l.webrtc == r.webrtc);
    assert(l.signaling == r.signaling);
    assert(l.deployment == r.deployment);
    assert(l.discovery == r.discovery);
    assert(l.storage == r.storage);
    assert(l.websocket == r.websocket);
    assert(l.observability == r.observability);
}

/// A dependency or command that a child names is the child's.
pub proof fn named_entries_come_from_the_child(
    parent: RawConfig,
    child: RawConfig,
    r: RawConfig,
    name: Seq<char>,
)
    requires
        is_merged(parent, child, r),
    ensures
        child.dependencies@.contains_key(name) ==> r.dependencies@.contains_key(name)
            && r.dependencies@[name] == child.dependencies@[name],
        !child.dependencies@.contains_key(name) && parent.dependencies@.contains_key(name)
            ==> r.dependencies@.contains_key(name) && r.dependencies@[name]
            == parent.dependencies@[name],
        child.scripts@.contains_key(name) ==> r.scripts@.contains_key(name) && r.scripts@[name]
            == child.scripts@[name],
        !child.scripts@.contains_key(name) && parent.scripts@.contains_key(name)
            ==> r.scripts@.contains_key(name) && r.scripts@[name] == parent.scripts@[name],
{
}

/// What counts of two optional settings: that of the child wherever it has one.
pub open spec fn child_wins<T>(parent: Option<T>, child: Option<T>, r: Option<T>) -> bool {
    &&& child is Some ==> r == child
    &&& child is None ==> r == parent
}

/// What counts of two lists: that of the child wherever it is not empty.
pub open spec fn child_list_wins(parent: Vec<String>, child: Vec<String>, r: Vec<String>) -> bool {
    &&& child@.len() > 0 ==> r == child
    &&& child@.len() == 0 ==> r == parent
}

/// Of every setting that both have, the child's counts; one that the child leaves out is its
/// parent's. Either can force the relay, and neither can take that back.
pub proof fn every_setting_of_the_child_counts(
    parent: RawSystemConfig,
    child: RawSystemConfig,
    r: RawSystemConfig,
)
    requires
        call_ensures(merge_system_config, (parent, child), r),
    ensures
        child_wins(parent.signaling.url, child.signaling.url, r.signaling.url),
        child_wins(parent.deployment.realm_id, child.deployment.realm_id, r.deployment.realm_id),
        child_wins(parent.discovery.visible, child.discovery.visible, r.discovery.visible),
        child_wins(parent.storage.mailbox_path, child.storage.mailbox_path, r.storage.mailbox_path),
        child_wins(parent.websocket.listen_port, child.websocket.listen_port, r.websocket.listen_port),
        child_wins(
            parent.websocket.advertised_host,
            child.websocket.advertised_host,
            r.websocket.advertised_host,
        ),
        child_wins(
            parent.observability.filter_level,
            child.observability.filter_level,
            r.observability.filter_level,
        ),
        child_wins(
            parent.observability.tracing_enabled,
            child.observability.tracing_enabled,
            r.observability.tracing_enabled,
        ),
        child_wins(
            parent.observability.tracing_endpoint,
            child.observability.tracing_endpoint,
            r.observability.tracing_endpoint,
        ),
        child_wins(
            parent.observability.tracing_service_name,
            child.observability.tracing_service_name,
            r.observability.tracing_service_name,
        ),
        child_list_wins(parent.webrtc.stun_urls, child.webrtc.stun_urls, r.webrtc.stun_urls),
        child_list_wins(parent.webrtc.turn_urls, child.webrtc.turn_urls, r.webrtc.turn_urls),
        child_list_wins(parent.webrtc.public_ips, child.webrtc.public_ips, r.webrtc.public_ips),
        child.webrtc.force_relay || parent.webrtc.force_relay <==> r.webrtc.force_relay,
        child_wins(
            parent.webrtc.ice_host_acceptance_min_wait,
            child.webrtc.ice_host_acceptance_min_wait,
            r.webrtc.ice_host_acceptance_min_wait,
        ),
        child_wins(
            parent.webrtc.ice_srflx_acceptance_min_wait,
            child.webrtc.ice_srflx_acceptance_min_wait,
            r.webrtc.ice_srflx_acceptance_min_wait,
        ),
        child_wins(
            parent.webrtc.ice_prflx_acceptance_min_wait,
            child.webrtc.ice_prflx_acceptance_min_wait,
            r.webrtc.ice_prflx_acceptance_min_wait,
        ),
        child_wins(
            parent.webrtc.ice_relay_acceptance_min_wait,
            child.webrtc.ice_relay_acceptance_min_wait,
            r.webrtc.ice_relay_acceptance_min_wait,
        ),
        child_wins(
            parent.webrtc.port_range_start,
            child.webrtc.port_range_start,
            r.webrtc.port_range_start,
        ),
        child_wins(parent.webrtc.port_range_end, child.webrtc.port_range_end, r.webrtc.port_range_end),
{
}

/// A merged configuration has the child's access rules if the child has any, and else the
/// parent's. What the package is, how the file is written and where the lock file lies, the
/// child says alone. Its settings are those that merging the settings gives.
pub proof fn the_rules_of_the_child_count(parent: RawConfig, child: RawConfig, r: RawConfig, s: RawSystemConfig)
    requires
        call_ensures(merge_inheritance, (parent, child), r),
        call_ensures(merge_system_config, (parent.system, child.system), s),
    ensures
        child.acl is Some ==> r.acl == child.acl,
        child.acl is None ==> r.acl == parent.acl,
        r.package == child.package,
        r.edition == child.edition,
        r.config_dir == child.config_dir,
        r.inherit is None,
        r.system == s,
{
}

/// A merged configuration exports what both export, the parent's files before the child's.
pub proof fn exports_add_up(parent: RawConfig, child: RawConfig, r: RawConfig, i: int)
    requires
        call_ensures(merge_inheritance, (parent, child), r),
        0 <= i < r.exports@.len(),
    ensures
        r.exports@.len() == parent.exports@.len() + child.exports@.len(),
        r.exports@[i] == if i < parent.exports@.len() {
            parent.exports@[i]
        } else {
            child.exports@[i - parent.exports@.len()]
        },
{
}

/// A dependency or command is in a merged configuration exactly if one of the two names it; it
/// is the child's if the child names it.
pub proof fn named_entries_are_the_childs_or_the_parents(
    parent: RawConfig,
    child: RawConfig,
    r: RawConfig,
    name: &str,
    in_parent: Option<&RawDependency>,
    in_child: Option<&RawDependency>,
    merged: Option<&RawDependency>,
    parent_script: Option<&String>,
    child_script: Option<&String>,
    script: Option<&String>,
)
    requires
        call_ensures(merge_inheritance, (parent, child), r),
        call_ensures(TextTable::<RawDependency>::get, (&parent.dependencies, name), in_parent),
        call_ensures(TextTable::<RawDependency>::get, (&child.dependencies, name), in_child),
        call_ensures(TextTable::<RawDependency>::get, (&r.dependencies, name), merged),
        call_ensures(TextTable::<String>::get, (&parent.scripts, name), parent_script),
        call_ensures(TextTable::<String>::get, (&child.scripts, name), child_script),
        call_ensures(TextTable::<String>::get, (&r.scripts, name), script),
    ensures
        in_child is Some ==> merged == in_child,
        in_child is None ==> merged == in_parent,
        child_script is Some ==> script == child_script,
        child_script is None ==> script == parent_script,
{
}

/// The configuration at `i` is the first of the chain that has access rules.
pub open spec fn first_with_acl(chain: Seq<RawConfig>, i: int) -> bool {
    &&& 0 <= i < chain.len()
    &&& chain[i].acl is Some
    &&& forall|j: int| 0 <= j < i ==> (#[trigger] chain[j]).acl is None
}

proof fn lemma_chain_acl(chain: Seq<RawConfig>, from: int, i: int)
    requires
        0 <= from <= i <= chain.len(),
        forall|j: int| from <= j < i ==> (#[trigger] chain[j]).acl is None,
        i < chain.len() ==> chain[i].acl is Some,
    ensures
        chain_acl(chain, from) == if i < chain.len() {
            chain[i].acl
        } else {
            None
        },
    decreases i - from,
{
    if from < i {
        assert(chain[from].acl is None);
        lemma_chain_acl(chain, from + 1, i);
    }
}

/// Along a chain the access rules are those of the configuration nearest to the child that has
/// any; without any there are none. What the package is, the child says alone.
pub proof fn the_nearest_rules_count(c: Inheritance, r: RawConfig, i: int)
    requires
        c.is_complete(),
        call_ensures(Inheritance::merged, (c,), r),
    ensures
        first_with_acl(c.chain@, i) ==> r.acl == c.chain@[i].acl,
        (forall|j: int| 0 <= j < c.chain@.len() ==> (#[trigger] c.chain@[j]).acl is None) ==> r.acl
            is None,
        r.package == c.chain@[0].package,
        r.edition == c.chain@[0].edition,
        r.config_dir == c.chain@[0].config_dir,
        r.inherit is None,
{
    if first_with_acl(c.chain@, i) {
        lemma_chain_acl(c.chain@, 0, i);
    }
    if forall|j: int| 0 <= j < c.chain@.len() ==> (#[trigger] c.chain@[j]).acl is None {
        lemma_chain_acl(c.chain@, 0, c.chain@.len() as int);
    }
}

/// A chain is merged from its far end: merging the child with the merge of all that it builds
/// on gives what merging the whole chain gives.
pub proof fn a_chain_is_merged_link_by_link(
    c: Inheritance,
    rest: Inheritance,
    whole: RawConfig,
    parents: RawConfig,
    both: RawConfig,
)
    requires
        c.is_complete(),
        c.chain@.len() > 1,
        rest.chain@ == c.chain@.skip(1),
        call_ensures(Inheritance::merged, (c,), whole),
        call_ensures(Inheritance::merged, (rest,), parents),
        call_ensures(merge_inheritance, (parents, c.chain@[0]), both),
    ensures
        whole.system == both.system,
        whole.acl == both.acl,
        whole.exports@ == both.exports@,
        whole.dependencies@ == both.dependencies@,
        whole.scripts@ == both.scripts@,
        whole.package == both.package,
        whole.edition == both.edition,
        whole.config_dir == both.config_dir,
{
    lemma_chain_shift(c.chain@, 1);
}

proof fn lemma_chain_shift(chain: Seq<RawConfig>, i: int)
    requires
        1 <= i <= chain.len(),
        chain.len() > 1,
    ensures
        chain_exports(chain.skip(1), i - 1) == chain_exports(chain, i),
        chain_dependencies(chain.skip(1), i - 1) == chain_dependencies(chain, i),
        chain_scripts(chain.skip(1), i - 1) == chain_scripts(chain, i),
        chain_acl(chain.skip(1), i - 1) == chain_acl(chain, i),
        i < chain.len() ==> chain_system(chain.skip(1), i - 1) == chain_system(chain, i),
    decreases chain.len() - i,
{
    if i < chain.len() {
        assert(chain.skip(1)[i - 1] == chain[i]);
        lemma_chain_shift(chain, i + 1);
    }
}

/// A configuration that builds on no other stays as it is.
pub proof fn a_configuration_alone_stays_as_it_is(child: RawConfig, c: Inheritance, r: RawConfig)
    requires
        child.inherit is None,
        call_ensures(Inheritance::new, (child,), c),
        call_ensures(Inheritance::merged, (c,), r),
    ensures
        c.is_complete(),
        r.system == child.system,
        r.acl == child.acl,
        r.exports@ == child.exports@,
        r.dependencies@ == child.dependencies@,
        r.scripts@ == child.scripts@,
        r.package == child.package,
        r.edition == child.edition,
{
    let chain = c.chain@;
    assert(chain_exports(chain, 1) =~= Seq::<String>::empty());
    assert(chain_exports(chain, 0) =~= child.exports@);
    assert(chain_dependencies(chain, 1) =~= Map::<Seq<char>, RawDependency>::empty());
    assert(chain_dependencies(chain, 0) =~= child.dependencies@);
    assert(chain_scripts(chain, 1) =~= Map::<Seq<char>, String>::empty());
    assert(chain_scripts(chain, 0) =~= child.scripts@);
    lemma_chain_acl(chain, 0, if child.acl is Some { 0 } else { 1 });
}

/// The file that is asked for next is the one that the last loaded configuration builds on,
/// and none is asked for once one builds on no other.
pub proof fn the_last_loaded_names_the_next(c: Inheritance, r: Option<&String>)
    requires
        c.wf(),
        call_ensures(Inheritance::missing_parent, (&c,), r),
    ensures
        r is Some <==> c.chain@.last().inherit is Some,
        r is Some ==> Some(*r->0) == c.chain@.last().inherit,
{
}

/// A parent that was loaded is put behind the others, unless it is written in another format
/// than the one that builds on it; then it is refused with both formats, and left out.
pub proof fn a_parent_is_written_like_its_child(
    c: &mut Inheritance,
    parent: RawConfig,
    r: ConfigResult<()>,
)
    requires
        c.wf(),
        call_ensures(Inheritance::parent_loaded, (c, parent), r),
    ensures
        r is Ok <==> parent.edition == old(c).chain@.last().edition,
        r is Ok ==> final(c).chain@.last() == parent && final(c).chain@.drop_last()
            == old(c).chain@,
        r is Err ==> final(c).chain@ == old(c).chain@,
        r matches Err(e) ==> e == (ConfigError::EditionMismatch {
            parent: parent.edition,
            child: old(c).chain@.last().edition,
        }),
{
    if r is Ok {
        assert(final(c).chain@.drop_last() =~= old(c).chain@);
    }
}

}
