//! The configuration of the running firewall, put together for a backup.

use vstd::prelude::*;
use vstd::string::*;

use crate::backup::convert::{
    copy_address, is_limit_of, is_nat_of, is_node_of, is_queue_of, is_rule_of, is_sni_of, is_vip_of, nat_parses,
    node_parses, rule_parses, CarpVip, ClusterNode, NatRule, PfsyncConfig, QueueConfig, RateLimitRule, Rule, SniRule,
};
use crate::backup::dhcp::{DhcpOptionOverrideConfig, DhcpReservationConfig, DhcpSection, DhcpSubnetConfig};
use crate::backup::dhcp_settings::{
    ddns_of_rows, global_of_rows, ha_of_rows, load_ddns, load_global, load_ha, DhcpDdnsSection, DhcpGlobalSection,
    DhcpHaSection,
};
use crate::backup::model::{
    range_of, Address, AliasConfig, AuthConfig, CarpVipConfig, Checked, ClusterNodeConfig, ConfigAddress,
    FirewallConfig, GeoIpEntry, HaConfig, IpsecSaConfig, IpsecTunnel, NatRuleConfig, PfsyncEntry, PortRange,
    QueueConfigEntry, RateLimitEntry, RuleConfig, SniRuleConfig, StaticRouteConfig, SystemConfig, TlsConfig,
    TuningEntry, VpnConfig, WireguardPeerConfig, WireguardTunnelConfig,
};
use crate::backup::validate::{
    addresses_parse, alias_restorable, geoip_restorable, nat_restorable, peers_parse, ports_distinct, restorable,
    route_restorable, rule_restorable, sa_restorable, tunnel_restorable, MAX_PRIORITY,
};
use crate::dns_resolver::config::ResolverConfig;
use crate::identifiers::{uuid_text, EntityId, IdView};
use crate::json::{texts_in_column, texts_of_json};
use crate::kv::{rows, KeyValue};
use crate::net::is_ip;
use crate::number::{dec, fmt_u64};
use crate::text::{has_prefix, lines, lines_of, push_line, same, strip_prefix, trim, trimmed, views};

verus! {

// ---------------------------------------------------------------------------
// Entities as entries of a backup
// ---------------------------------------------------------------------------

/// The text of an address.
pub open spec fn address_text(a: Address) -> Seq<char> {
    match a {
        Address::Any => "any"@,
        Address::Literal(t) => t@,
    }
}

/// `c` writes the address `a`.
pub open spec fn is_address_entry(c: ConfigAddress, a: Address) -> bool {
    c.text@ == address_text(a) && c.parsed == Some(a)
}

/// The entry for an address.
pub fn address_entry(a: &Address) -> (c: ConfigAddress)
    ensures
        is_address_entry(c, *a),
{
    let text = match a {
        Address::Any => "any".to_owned(),
        Address::Literal(t) => t.clone(),
    };
    ConfigAddress { text, parsed: Some(copy_address(a)) }
}

/// The first port of an optional range.
pub open spec fn start_of(p: Option<PortRange>) -> Option<u16> {
    match p {
        Some(r) => Some(r.start),
        None => None,
    }
}

/// The last port of an optional range.
pub open spec fn end_of(p: Option<PortRange>) -> Option<u16> {
    match p {
        Some(r) => Some(r.end),
        None => None,
    }
}

fn first_port(p: &Option<PortRange>) -> (r: Option<u16>)
    ensures
        r == start_of(*p),
{
    match p {
        Some(x) => Some(x.start),
        None => None,
    }
}

fn last_port(p: &Option<PortRange>) -> (r: Option<u16>)
    ensures
        r == end_of(*p),
{
    match p {
        Some(x) => Some(x.end),
        None => None,
    }
}

/// The identifier of a stored entity.
fn id_text(id: &EntityId) -> (r: String)
    requires
        id is Kept,
    ensures
        id@ == IdView::Kept(r@),
{
    match id {
        EntityId::Kept(t) => t.clone(),
        EntityId::Fresh => String::new(),
    }
}

/// `c` is the entry for the rule `r`.
pub open spec fn is_rule_entry(c: RuleConfig, r: Rule) -> bool {
    &&& r.id@ == IdView::Kept(c.id@)
    &&& c.priority == r.priority
    &&& c.action == r.action
    &&& c.direction == r.direction
    &&& c.protocol == r.protocol
    &&& c.interface == r.interface
    &&& c.src_addr is Some && is_address_entry(c.src_addr->0, r.rule_match.src_addr)
    &&& c.src_port_start == start_of(r.rule_match.src_port)
    &&& c.src_port_end == end_of(r.rule_match.src_port)
    &&& c.dst_addr is Some && is_address_entry(c.dst_addr->0, r.rule_match.dst_addr)
    &&& c.dst_port_start == start_of(r.rule_match.dst_port)
    &&& c.dst_port_end == end_of(r.rule_match.dst_port)
    &&& c.log == r.log
    &&& c.quick == r.quick
    &&& c.label == r.label
    &&& c.state_tracking == r.state_tracking
    &&& c.status == r.status
    &&& c.ip_version == r.ip_version
    &&& c.src_invert == r.src_invert
    &&& c.dst_invert == r.dst_invert
    &&& c.schedule_id == r.schedule_id
    &&& c.gateway == r.gateway
}

/// The entry for a rule.
pub fn rule_entry(r: &Rule) -> (c: RuleConfig)
    requires
        r.id is Kept,
    ensures
        is_rule_entry(c, *r),
{
    RuleConfig {
        id: id_text(&r.id),
        priority: r.priority,
        action: r.action.clone(),
        direction: r.direction.clone(),
        protocol: r.protocol.clone(),
        interface: r.interface.clone(),
        src_addr: Some(address_entry(&r.rule_match.src_addr)),
        src_port_start: first_port(&r.rule_match.src_port),
        src_port_end: last_port(&r.rule_match.src_port),
        dst_addr: Some(address_entry(&r.rule_match.dst_addr)),
        dst_port_start: first_port(&r.rule_match.dst_port),
        dst_port_end: last_port(&r.rule_match.dst_port),
        log: r.log,
        quick: r.quick,
        label: r.label.clone(),
        state_tracking: r.state_tracking.clone(),
        status: r.status.clone(),
        ip_version: r.ip_version.clone(),
        src_invert: r.src_invert,
        dst_invert: r.dst_invert,
        schedule_id: r.schedule_id.clone(),
        gateway: r.gateway.clone(),
    }
}

/// `c` is the entry for the translation rule `n`.
pub open spec fn is_nat_entry(c: NatRuleConfig, n: NatRule) -> bool {
    &&& n.id@ == IdView::Kept(c.id@)
    &&& c.nat_type == n.nat_type
    &&& c.interface == n.interface
    &&& c.protocol == n.protocol
    &&& c.src_addr is Some && is_address_entry(c.src_addr->0, n.src_addr)
    &&& c.src_port_start == start_of(n.src_port)
    &&& c.src_port_end == end_of(n.src_port)
    &&& c.dst_addr is Some && is_address_entry(c.dst_addr->0, n.dst_addr)
    &&& c.dst_port_start == start_of(n.dst_port)
    &&& c.dst_port_end == end_of(n.dst_port)
    &&& is_address_entry(c.redirect_addr, n.redirect_addr)
    &&& c.redirect_port_start == start_of(n.redirect_port)
    &&& c.redirect_port_end == end_of(n.redirect_port)
    &&& c.label == n.label
    &&& c.status == n.status
}

/// The entry for a translation rule.
pub fn nat_entry(n: &NatRule) -> (c: NatRuleConfig)
    requires
        n.id is Kept,
    ensures
        is_nat_entry(c, *n),
{
    NatRuleConfig {
        id: id_text(&n.id),
        nat_type: n.nat_type.clone(),
        interface: n.interface.clone(),
        protocol: n.protocol.clone(),
        src_addr: Some(address_entry(&n.src_addr)),
        src_port_start: first_port(&n.src_port),
        src_port_end: last_port(&n.src_port),
        dst_addr: Some(address_entry(&n.dst_addr)),
        dst_port_start: first_port(&n.dst_port),
        dst_port_end: last_port(&n.dst_port),
        redirect_addr: address_entry(&n.redirect_addr),
        redirect_port_start: first_port(&n.redirect_port),
        redirect_port_end: last_port(&n.redirect_port),
        label: n.label.clone(),
        status: n.status.clone(),
    }
}

/// `c` is the entry for the queue `q`.
pub open spec fn is_queue_entry(c: QueueConfigEntry, q: QueueConfig) -> bool {
    &&& q.id@ == IdView::Kept(c.id@)
    &&& c.name == q.name
    &&& c.interface == q.interface
    &&& c.queue_type == q.queue_type
    &&& c.bandwidth_value == q.bandwidth_value
    &&& c.bandwidth_unit == q.bandwidth_unit
    &&& c.traffic_class == q.traffic_class
    &&& c.bandwidth_pct == q.bandwidth_pct
    &&& c.default == q.default
    &&& c.status == q.status
}

/// The entry for a queue.
pub fn queue_entry(q: &QueueConfig) -> (c: QueueConfigEntry)
    requires
        q.id is Kept,
    ensures
        is_queue_entry(c, *q),
{
    QueueConfigEntry {
        id: id_text(&q.id),
        name: q.name.clone(),
        interface: q.interface.clone(),
        queue_type: q.queue_type.clone(),
        bandwidth_value: q.bandwidth_value,
        bandwidth_unit: q.bandwidth_unit.clone(),
        traffic_class: q.traffic_class.clone(),
        bandwidth_pct: q.bandwidth_pct,
        default: q.default,
        status: q.status.clone(),
    }
}

/// `c` is the entry for the rate limit `r`.
pub open spec fn is_limit_entry(c: RateLimitEntry, r: RateLimitRule) -> bool {
    &&& r.id@ == IdView::Kept(c.id@)
    &&& c.name == r.name
    &&& c.interface == r.interface
    &&& c.protocol == r.protocol
    &&& c.dst_port_start == start_of(r.dst_port)
    &&& c.dst_port_end == end_of(r.dst_port)
    &&& c.max_connections == r.max_connections
    &&& c.window_secs == r.window_secs
    &&& c.overload_table == r.overload_table
    &&& c.flush_states == r.flush_states
    &&& c.status == r.status
}

/// The entry for a rate limit.
pub fn limit_entry(r: &RateLimitRule) -> (c: RateLimitEntry)
    requires
        r.id is Kept,
    ensures
        is_limit_entry(c, *r),
{
    RateLimitEntry {
        id: id_text(&r.id),
        name: r.name.clone(),
        interface: r.interface.clone(),
        protocol: r.protocol.clone(),
        dst_port_start: first_port(&r.dst_port),
        dst_port_end: last_port(&r.dst_port),
        max_connections: r.max_connections,
        window_secs: r.window_secs,
        overload_table: r.overload_table.clone(),
        flush_states: r.flush_states,
        status: r.status.clone(),
    }
}

/// `c` is the entry for the rule on server names `r`.
pub open spec fn is_sni_entry(c: SniRuleConfig, r: SniRule) -> bool {
    r.id@ == IdView::Kept(c.id@) && c.pattern == r.pattern && c.action == r.action && c.label == r.label
}

/// The entry for a rule on server names.
pub fn sni_entry(r: &SniRule) -> (c: SniRuleConfig)
    requires
        r.id is Kept,
    ensures
        is_sni_entry(c, *r),
{
    SniRuleConfig {
        id: id_text(&r.id),
        pattern: r.pattern.clone(),
        action: r.action.clone(),
        label: r.label.clone(),
    }
}

/// `c` is the entry for the shared address `v`.
pub open spec fn is_vip_entry(c: CarpVipConfig, v: CarpVip) -> bool {
    v.id@ == IdView::Kept(c.id@) && c.vhid == v.vhid && c.virtual_ip == v.virtual_ip && c.prefix == v.prefix && c.interface
        == v.interface && c.password == v.password
}

/// The entry for a shared address.
pub fn vip_entry(v: &CarpVip) -> (c: CarpVipConfig)
    requires
        v.id is Kept,
    ensures
        is_vip_entry(c, *v),
{
    CarpVipConfig {
        id: id_text(&v.id),
        vhid: v.vhid,
        virtual_ip: v.virtual_ip.clone(),
        prefix: v.prefix,
        interface: v.interface.clone(),
        password: v.password.clone(),
    }
}

/// `c` is the entry for the node `n`, whose role is known.
pub open spec fn is_node_entry(c: ClusterNodeConfig, n: ClusterNode) -> bool {
    n.id@ == IdView::Kept(c.id@) && c.name == n.name && c.address == n.address && c.role.text == n.role && c.role.valid
}

/// The entry for a cluster node.
pub fn node_entry(n: &ClusterNode) -> (c: ClusterNodeConfig)
    requires
        n.id is Kept,
    ensures
        is_node_entry(c, *n),
{
    ClusterNodeConfig {
        id: id_text(&n.id),
        name: n.name.clone(),
        address: n.address.clone(),
        role: Checked { text: n.role.clone(), valid: true },
    }
}

/// A rule that goes into a backup comes out of it as it was, but for its
/// description, which a backup does not carry.
pub proof fn rule_round_trip(r: Rule, c: RuleConfig, back: Rule)
    requires
        is_rule_entry(c, r),
        uuid_text(c.id@) == Some(c.id@),
        is_rule_of(back, c),
    ensures
        rule_parses(c),
        back.id@ == r.id@,
        back == (Rule { id: back.id, description: None, ..r }),
{
    assert(range_of(start_of(r.rule_match.src_port), end_of(r.rule_match.src_port)) == r.rule_match.src_port);
    assert(range_of(start_of(r.rule_match.dst_port), end_of(r.rule_match.dst_port)) == r.rule_match.dst_port);
}

/// A translation rule that goes into a backup comes out of it as it was.
pub proof fn nat_round_trip(n: NatRule, c: NatRuleConfig, back: NatRule)
    requires
        is_nat_entry(c, n),
        uuid_text(c.id@) == Some(c.id@),
        is_nat_of(back, c),
    ensures
        nat_parses(c),
        back.id@ == n.id@,
        back == (NatRule { id: back.id, ..n }),
{
    assert(range_of(start_of(n.src_port), end_of(n.src_port)) == n.src_port);
    assert(range_of(start_of(n.dst_port), end_of(n.dst_port)) == n.dst_port);
    assert(range_of(start_of(n.redirect_port), end_of(n.redirect_port)) == n.redirect_port);
}

/// A queue that goes into a backup comes out of it as it was.
pub proof fn queue_round_trip(q: QueueConfig, c: QueueConfigEntry, back: QueueConfig)
    requires
        is_queue_entry(c, q),
        uuid_text(c.id@) == Some(c.id@),
        is_queue_of(back, c),
    ensures
        back.id@ == q.id@,
        back == (QueueConfig { id: back.id, ..q }),
{
}

/// A limit that goes into a backup comes out of it as it was, but for the
/// addresses that it holds for, which a backup does not carry.
pub proof fn limit_round_trip(r: RateLimitRule, c: RateLimitEntry, back: RateLimitRule)
    requires
        is_limit_entry(c, r),
        uuid_text(c.id@) == Some(c.id@),
        is_limit_of(back, c),
    ensures
        back.id@ == r.id@,
        back == (RateLimitRule { id: back.id, src_addr: Address::Any, dst_addr: Address::Any, ..r }),
{
    assert(range_of(start_of(r.dst_port), end_of(r.dst_port)) == r.dst_port);
}

/// A rule on server names that goes into a backup comes out of it as it was.
pub proof fn sni_round_trip(r: SniRule, c: SniRuleConfig, back: SniRule)
    requires
        is_sni_entry(c, r),
        uuid_text(c.id@) == Some(c.id@),
        is_sni_of(back, c),
    ensures
        back.id@ == r.id@,
        back == (SniRule { id: back.id, ..r }),
{
}

/// A shared address that goes into a backup comes out of it as it was.
pub proof fn vip_round_trip(v: CarpVip, c: CarpVipConfig, back: CarpVip)
    requires
        is_vip_entry(c, v),
        uuid_text(c.id@) == Some(c.id@),
        is_vip_of(back, c),
    ensures
        back.id@ == v.id@,
        back == (CarpVip { id: back.id, ..v }),
{
}

/// A node that goes into a backup comes out of it as it was.
pub proof fn node_round_trip(n: ClusterNode, c: ClusterNodeConfig, back: ClusterNode)
    requires
        is_node_entry(c, n),
        uuid_text(c.id@) == Some(c.id@),
        is_node_of(back, c),
    ensures
        node_parses(c) <==> is_ip(n.address@),
        back.id@ == n.id@,
        back == (ClusterNode { id: back.id, ..n }),
{
}

/// Every rule has an identifier.
pub open spec fn rules_stored(v: Seq<Rule>) -> bool {
    forall|i: int| 0 <= i < v.len() ==> (#[trigger] v[i]).id is Kept
}

/// `c` holds the entries for `v`, in order.
pub open spec fn are_rule_entries(c: Seq<RuleConfig>, v: Seq<Rule>) -> bool {
    c.len() == v.len() && forall|i: int| 0 <= i < v.len() ==> is_rule_entry(#[trigger] c[i], v[i])
}

fn rule_entries(v: &Vec<Rule>) -> (c: Vec<RuleConfig>)
    requires
        rules_stored(v@),
    ensures
        are_rule_entries(c@, v@),
{
    let mut c: Vec<RuleConfig> = Vec::new();
    let mut i: usize = 0;
    while i < v.len()
        invariant
            i <= v@.len(),
            rules_stored(v@),
            c@.len() == i,
            forall|k: int| 0 <= k < i ==> is_rule_entry(#[trigger] c@[k], v@[k]),
        decreases v.len() - i,
    {
        assert(v@[i as int].id is Kept);
        c.push(rule_entry(&v[i]));
        i = i + 1;
    }
    c
}

/// Every translation rule has an identifier.
pub open spec fn nats_stored(v: Seq<NatRule>) -> bool {
    forall|i: int| 0 <= i < v.len() ==> (#[trigger] v[i]).id is Kept
}

/// `c` holds the entries for `v`, in order.
pub open spec fn are_nat_entries(c: Seq<NatRuleConfig>, v: Seq<NatRule>) -> bool {
    c.len() == v.len() && forall|i: int| 0 <= i < v.len() ==> is_nat_entry(#[trigger] c[i], v[i])
}

fn nat_entries(v: &Vec<NatRule>) -> (c: Vec<NatRuleConfig>)
    requires
        nats_stored(v@),
    ensures
        are_nat_entries(c@, v@),
{
    let mut c: Vec<NatRuleConfig> = Vec::new();
    let mut i: usize = 0;
    while i < v.len()
        invariant
            i <= v@.len(),
            nats_stored(v@),
            c@.len() == i,
            forall|k: int| 0 <= k < i ==> is_nat_entry(#[trigger] c@[k], v@[k]),
        decreases v.len() - i,
    {
        assert(v@[i as int].id is Kept);
        c.push(nat_entry(&v[i]));
        i = i + 1;
    }
    c
}

/// Every queue has an identifier.
pub open spec fn queues_stored(v: Seq<QueueConfig>) -> bool {
    forall|i: int| 0 <= i < v.len() ==> (#[trigger] v[i]).id is Kept
}

/// `c` holds the entries for `v`, in order.
pub open spec fn are_queue_entries(c: Seq<QueueConfigEntry>, v: Seq<QueueConfig>) -> bool {
    c.len() == v.len() && forall|i: int| 0 <= i < v.len() ==> is_queue_entry(#[trigger] c[i], v[i])
}

fn queue_entries(v: &Vec<QueueConfig>) -> (c: Vec<QueueConfigEntry>)
    requires
        queues_stored(v@),
    ensures
        are_queue_entries(c@, v@),
{
    let mut c: Vec<QueueConfigEntry> = Vec::new();
    let mut i: usize = 0;
    while i < v.len()
        invariant
            i <= v@.len(),
            queues_stored(v@),
            c@.len() == i,
            forall|k: int| 0 <= k < i ==> is_queue_entry(#[trigger] c@[k], v@[k]),
        decreases v.len() - i,
    {
        assert(v@[i as int].id is Kept);
        c.push(queue_entry(&v[i]));
        i = i + 1;
    }
    c
}

/// Every rate limit has an identifier.
pub open spec fn limits_stored(v: Seq<RateLimitRule>) -> bool {
    forall|i: int| 0 <= i < v.len() ==> (#[trigger] v[i]).id is Kept
}

/// `c` holds the entries for `v`, in order.
pub open spec fn are_limit_entries(c: Seq<RateLimitEntry>, v: Seq<RateLimitRule>) -> bool {
    c.len() == v.len() && forall|i: int| 0 <= i < v.len() ==> is_limit_entry(#[trigger] c[i], v[i])
}

fn limit_entries(v: &Vec<RateLimitRule>) -> (c: Vec<RateLimitEntry>)
    requires
        limits_stored(v@),
    ensures
        are_limit_entries(c@, v@),
{
    let mut c: Vec<RateLimitEntry> = Vec::new();
    let mut i: usize = 0;
    while i < v.len()
        invariant
            i <= v@.len(),
            limits_stored(v@),
            c@.len() == i,
            forall|k: int| 0 <= k < i ==> is_limit_entry(#[trigger] c@[k], v@[k]),
        decreases v.len() - i,
    {
        assert(v@[i as int].id is Kept);
        c.push(limit_entry(&v[i]));
        i = i + 1;
    }
    c
}

/// Every rule on server names has an identifier.
pub open spec fn snis_stored(v: Seq<SniRule>) -> bool {
    forall|i: int| 0 <= i < v.len() ==> (#[trigger] v[i]).id is Kept
}

/// `c` holds the entries for `v`, in order.
pub open spec fn are_sni_entries(c: Seq<SniRuleConfig>, v: Seq<SniRule>) -> bool {
    c.len() == v.len() && forall|i: int| 0 <= i < v.len() ==> is_sni_entry(#[trigger] c[i], v[i])
}

fn sni_entries(v: &Vec<SniRule>) -> (c: Vec<SniRuleConfig>)
    requires
        snis_stored(v@),
    ensures
        are_sni_entries(c@, v@),
{
    let mut c: Vec<SniRuleConfig> = Vec::new();
    let mut i: usize = 0;
    while i < v.len()
        invariant
            i <= v@.len(),
            snis_stored(v@),
            c@.len() == i,
            forall|k: int| 0 <= k < i ==> is_sni_entry(#[trigger] c@[k], v@[k]),
        decreases v.len() - i,
    {
        assert(v@[i as int].id is Kept);
        c.push(sni_entry(&v[i]));
        i = i + 1;
    }
    c
}

/// Every shared address has an identifier.
pub open spec fn vips_stored(v: Seq<CarpVip>) -> bool {
    forall|i: int| 0 <= i < v.len() ==> (#[trigger] v[i]).id is Kept
}

/// `c` holds the entries for `v`, in order.
pub open spec fn are_vip_entries(c: Seq<CarpVipConfig>, v: Seq<CarpVip>) -> bool {
    c.len() == v.len() && forall|i: int| 0 <= i < v.len() ==> is_vip_entry(#[trigger] c[i], v[i])
}

fn vip_entries(v: &Vec<CarpVip>) -> (c: Vec<CarpVipConfig>)
    requires
        vips_stored(v@),
    ensures
        are_vip_entries(c@, v@),
{
    let mut c: Vec<CarpVipConfig> = Vec::new();
    let mut i: usize = 0;
    while i < v.len()
        invariant
            i <= v@.len(),
            vips_stored(v@),
            c@.len() == i,
            forall|k: int| 0 <= k < i ==> is_vip_entry(#[trigger] c@[k], v@[k]),
        decreases v.len() - i,
    {
        assert(v@[i as int].id is Kept);
        c.push(vip_entry(&v[i]));
        i = i + 1;
    }
    c
}

/// Every node has an identifier.
pub open spec fn nodes_stored(v: Seq<ClusterNode>) -> bool {
    forall|i: int| 0 <= i < v.len() ==> (#[trigger] v[i]).id is Kept
}

/// `c` holds the entries for `v`, in order.
pub open spec fn are_node_entries(c: Seq<ClusterNodeConfig>, v: Seq<ClusterNode>) -> bool {
    c.len() == v.len() && forall|i: int| 0 <= i < v.len() ==> is_node_entry(#[trigger] c[i], v[i])
}

fn node_entries(v: &Vec<ClusterNode>) -> (c: Vec<ClusterNodeConfig>)
    requires
        nodes_stored(v@),
    ensures
        are_node_entries(c@, v@),
{
    let mut c: Vec<ClusterNodeConfig> = Vec::new();
    let mut i: usize = 0;
    while i < v.len()
        invariant
            i <= v@.len(),
            nodes_stored(v@),
            c@.len() == i,
            forall|k: int| 0 <= k < i ==> is_node_entry(#[trigger] c@[k], v@[k]),
        decreases v.len() - i,
    {
        assert(v@[i as int].id is Kept);
        c.push(node_entry(&v[i]));
        i = i + 1;
    }
    c
}

// ---------------------------------------------------------------------------
// WireGuard peers
// ---------------------------------------------------------------------------

/// A peer and the tunnel that it belongs to.
#[derive(Clone, Debug)]
pub struct TunnelPeer {
    pub tunnel_id: String,
    pub peer: WireguardPeerConfig,
}

fn copy_config_address(a: &ConfigAddress) -> (r: ConfigAddress)
    ensures
        r == *a,
{
    let parsed = match &a.parsed {
        Some(p) => Some(copy_address(p)),
        None => None,
    };
    ConfigAddress { text: a.text.clone(), parsed }
}

/// `r` has everything that `p` has.
pub open spec fn same_peer(r: WireguardPeerConfig, p: WireguardPeerConfig) -> bool {
    &&& r.id == p.id
    &&& r.name == p.name
    &&& r.public_key == p.public_key
    &&& r.preshared_key == p.preshared_key
    &&& r.endpoint == p.endpoint
    &&& r.allowed_ips@ == p.allowed_ips@
    &&& r.persistent_keepalive == p.persistent_keepalive
}

fn copy_peer(p: &WireguardPeerConfig) -> (r: WireguardPeerConfig)
    ensures
        same_peer(r, *p),
{
    let mut ips: Vec<ConfigAddress> = Vec::new();
    let mut i: usize = 0;
    while i < p.allowed_ips.len()
        invariant
            i <= p.allowed_ips@.len(),
            ips@ =~= p.allowed_ips@.take(i as int),
        decreases p.allowed_ips.len() - i,
    {
        ips.push(copy_config_address(&p.allowed_ips[i]));
        i = i + 1;
    }
    assert(p.allowed_ips@.take(p.allowed_ips@.len() as int) =~= p.allowed_ips@);
    WireguardPeerConfig {
        id: p.id.clone(),
        name: p.name.clone(),
        public_key: p.public_key.clone(),
        preshared_key: p.preshared_key.clone(),
        endpoint: p.endpoint.clone(),
        allowed_ips: ips,
        persistent_keepalive: p.persistent_keepalive,
    }
}

/// The peers of the tunnel `id`, in order.
pub open spec fn peers_of(id: Seq<char>, v: Seq<TunnelPeer>) -> Seq<WireguardPeerConfig>
    decreases v.len(),
{
    if v.len() == 0 {
        Seq::<WireguardPeerConfig>::empty()
    } else if v.last().tunnel_id@ == id {
        peers_of(id, v.drop_last()).push(v.last().peer)
    } else {
        peers_of(id, v.drop_last())
    }
}

/// The two lists hold the same peers.
pub open spec fn same_peers(r: Seq<WireguardPeerConfig>, p: Seq<WireguardPeerConfig>) -> bool {
    r.len() == p.len() && forall|i: int| 0 <= i < p.len() ==> same_peer(#[trigger] r[i], p[i])
}

fn collect_peers(id: &str, v: &Vec<TunnelPeer>) -> (r: Vec<WireguardPeerConfig>)
    ensures
        same_peers(r@, peers_of(id@, v@)),
{
    let mut r: Vec<WireguardPeerConfig> = Vec::new();
    let mut i: usize = 0;
    while i < v.len()
        invariant
            i <= v@.len(),
            same_peers(r@, peers_of(id@, v@.take(i as int))),
        decreases v.len() - i,
    {
        assert(v@.take(i + 1).drop_last() =~= v@.take(i as int));
        if same(v[i].tunnel_id.as_str(), id) {
            r.push(copy_peer(&v[i].peer));
        }
        i = i + 1;
    }
    assert(v@.take(v@.len() as int) =~= v@);
    r
}

/// `r` is the tunnel `t` with the peers among `v` that belong to it.
pub open spec fn is_tunnel_with_peers(r: WireguardTunnelConfig, t: WireguardTunnelConfig, v: Seq<TunnelPeer>) -> bool {
    same_peers(r.peers@, peers_of(t.id@, v)) && r == (WireguardTunnelConfig { peers: r.peers, ..t })
}

fn attach_peers(tunnels: Vec<WireguardTunnelConfig>, v: &Vec<TunnelPeer>) -> (r: Vec<WireguardTunnelConfig>)
    ensures
        r@.len() == tunnels@.len(),
        forall|i: int| 0 <= i < r@.len() ==> is_tunnel_with_peers(#[trigger] r@[i], tunnels@[i], v@),
{
    let mut rest = tunnels;
    let ghost all = tunnels@;
    let mut r: Vec<WireguardTunnelConfig> = Vec::new();
    while rest.len() > 0
        invariant
            rest@.len() + r@.len() == all.len(),
            rest@ =~= all.skip(r@.len() as int),
            forall|i: int| 0 <= i < r@.len() ==> is_tunnel_with_peers(#[trigger] r@[i], all[i], v@),
        decreases rest.len(),
    {
        let t = rest.remove(0);
        assert(t == all[r@.len() as int]);
        let peers = collect_peers(t.id.as_str(), v);
        r.push(
            WireguardTunnelConfig {
                id: t.id,
                name: t.name,
                interface: t.interface,
                listen_port: t.listen_port,
                address: t.address,
                address6: t.address6,
                private_key: t.private_key,
                public_key: t.public_key,
                dns: t.dns,
                mtu: t.mtu,
                peers,
            },
        );
    }
    r
}

// ---------------------------------------------------------------------------
// System settings
// ---------------------------------------------------------------------------

/// The name servers of the lines `ls` of `resolv.conf`.
pub open spec fn nameservers(ls: Seq<Seq<char>>) -> Seq<Seq<char>>
    decreases ls.len(),
{
    if ls.len() == 0 {
        Seq::<Seq<char>>::empty()
    } else if has_prefix(ls.last(), "nameserver"@) {
        nameservers(ls.drop_last()).push(trim(ls.last().skip("nameserver"@.len() as int)))
    } else {
        nameservers(ls.drop_last())
    }
}

/// The name servers that `resolv.conf` lists.
pub fn resolv_nameservers(text: &str) -> (r: Vec<String>)
    ensures
        views(r@) == nameservers(lines(text@)),
{
    let ls = lines_of(text);
    let ghost all = views(ls@);
    let mut r: Vec<String> = Vec::new();
    let mut i: usize = 0;
    assert(views(r@) =~= nameservers(all.take(0)));
    while i < ls.len()
        invariant
            i <= ls@.len(),
            all == views(ls@),
            views(r@) == nameservers(all.take(i as int)),
        decreases ls.len() - i,
    {
        assert(all.take(i + 1).drop_last() =~= all.take(i as int));
        match strip_prefix(ls[i].as_str(), "nameserver") {
            Some(rest) => push_line(&mut r, trimmed(rest.as_str())),
            None => {},
        }
        i = i + 1;
    }
    assert(all.take(ls@.len() as int) =~= all);
    r
}

/// The host's name out of `/etc/hostname`: `aifw` where there is none.
pub open spec fn hostname_of(file: Option<Seq<char>>) -> Seq<char> {
    match file {
        Some(t) => if trim(t).len() > 0 {
            trim(t)
        } else {
            "aifw"@
        },
        None => "aifw"@,
    }
}

fn hostname(file: &Option<String>) -> (r: String)
    ensures
        r@ == hostname_of(crate::kv::option_view(*file)),
{
    match file {
        Some(t) => {
            let h = trimmed(t.as_str());
            if h.as_str().is_empty() {
                "aifw".to_owned()
            } else {
                h
            }
        },
        None => "aifw".to_owned(),
    }
}

// ---------------------------------------------------------------------------
// The DHCP section
// ---------------------------------------------------------------------------

/// A subnet as its row holds it; the options are decoded already.
#[derive(Clone, Debug)]
pub struct SubnetRow {
    pub id: String,
    pub network: String,
    pub pool_start: String,
    pub pool_end: String,
    pub gateway: String,
    pub dns_servers: Option<String>,
    pub domain_name: Option<String>,
    pub lease_time: Option<i64>,
    pub max_lease_time: Option<i64>,
    pub renewal_time: Option<i64>,
    pub rebinding_time: Option<i64>,
    pub preferred_time: Option<i64>,
    pub subnet_type: Option<String>,
    pub delegated_length: Option<i64>,
    pub enabled: bool,
    pub description: Option<String>,
    /// The trusted relays as a JSON array.
    pub trusted_relays: Option<String>,
    pub ntp_servers: Option<String>,
    pub options: Vec<DhcpOptionOverrideConfig>,
    pub created_at: String,
}

/// The low 32 bits of an optional number.
pub open spec fn low_u32(v: Option<i64>) -> Option<u32> {
    match v {
        Some(n) => Some(n as u32),
        None => None,
    }
}

/// The low 8 bits of an optional number.
pub open spec fn low_u8(v: Option<i64>) -> Option<u8> {
    match v {
        Some(n) => Some(n as u8),
        None => None,
    }
}

fn cut_u32(v: Option<i64>) -> (r: Option<u32>)
    ensures
        r == low_u32(v),
{
    match v {
        Some(n) => Some(n as u32),
        None => None,
    }
}

fn cut_u8(v: Option<i64>) -> (r: Option<u8>)
    ensures
        r == low_u8(v),
{
    match v {
        Some(n) => Some(n as u8),
        None => None,
    }
}

/// The relays that a column holds: none where it is no JSON array of strings.
pub open spec fn relays_of(column: Option<String>) -> Seq<Seq<char>> {
    match column {
        Some(t) => match texts_of_json(t@) {
            Some(l) => l,
            None => Seq::<Seq<char>>::empty(),
        },
        None => Seq::<Seq<char>>::empty(),
    }
}

/// `s` is the subnet of the row `r`.
pub open spec fn is_subnet_of_row(s: DhcpSubnetConfig, r: SubnetRow) -> bool {
    &&& s.id == r.id
    &&& s.network == r.network
    &&& s.pool_start == r.pool_start
    &&& s.pool_end == r.pool_end
    &&& s.gateway == r.gateway
    &&& s.dns_servers == r.dns_servers
    &&& s.domain_name == r.domain_name
    &&& s.lease_time == low_u32(r.lease_time)
    &&& s.max_lease_time == low_u32(r.max_lease_time)
    &&& s.renewal_time == low_u32(r.renewal_time)
    &&& s.rebinding_time == low_u32(r.rebinding_time)
    &&& s.preferred_time == low_u32(r.preferred_time)
    &&& s.subnet_type@ == (match r.subnet_type {
        Some(t) => t@,
        None => "address"@,
    })
    &&& s.delegated_length == low_u8(r.delegated_length)
    &&& s.enabled == r.enabled
    &&& s.description == r.description
    &&& views(s.trusted_relays@) == relays_of(r.trusted_relays)
    &&& s.ntp_servers == r.ntp_servers
    &&& s.options == r.options
    &&& s.created_at == r.created_at
}

/// The subnet that a row holds.
pub fn subnet_from_row(r: SubnetRow) -> (s: DhcpSubnetConfig)
    ensures
        is_subnet_of_row(s, r),
{
    let trusted_relays = match &r.trusted_relays {
        Some(t) => texts_in_column(Some(t.as_str())),
        None => texts_in_column(None),
    };
    let subnet_type = match r.subnet_type {
        Some(t) => t,
        None => "address".to_owned(),
    };
    DhcpSubnetConfig {
        id: r.id,
        network: r.network,
        pool_start: r.pool_start,
        pool_end: r.pool_end,
        gateway: r.gateway,
        dns_servers: r.dns_servers,
        domain_name: r.domain_name,
        lease_time: cut_u32(r.lease_time),
        max_lease_time: cut_u32(r.max_lease_time),
        renewal_time: cut_u32(r.renewal_time),
        rebinding_time: cut_u32(r.rebinding_time),
        preferred_time: cut_u32(r.preferred_time),
        subnet_type,
        delegated_length: cut_u8(r.delegated_length),
        enabled: r.enabled,
        description: r.description,
        trusted_relays,
        ntp_servers: r.ntp_servers,
        options: r.options,
        created_at: r.created_at,
    }
}

/// A route as its row holds it.
#[derive(Clone, Debug)]
pub struct RouteRow {
    pub id: String,
    pub destination: String,
    pub gateway: String,
    pub interface: Option<String>,
    pub metric: i64,
    pub enabled: bool,
    pub description: Option<String>,
    pub fib: i64,
}

/// The entry for the route of a row.
pub open spec fn route_of_row(r: RouteRow) -> StaticRouteConfig {
    StaticRouteConfig {
        id: r.id,
        destination: r.destination,
        gateway: r.gateway,
        interface: r.interface,
        metric: r.metric as i32,
        enabled: r.enabled,
        description: r.description,
        fib: r.fib as u32,
    }
}

/// The entries for the routes of the rows.
pub fn build_static_routes_section(v: Vec<RouteRow>) -> (r: Vec<StaticRouteConfig>)
    ensures
        r@ == v@.map_values(|w: RouteRow| route_of_row(w)),
{
    let ghost all = v@;
    let mut rest = v;
    let mut r: Vec<StaticRouteConfig> = Vec::new();
    while rest.len() > 0
        invariant
            rest@.len() + r@.len() == all.len(),
            rest@ =~= all.skip(r@.len() as int),
            r@ =~= all.take(r@.len() as int).map_values(|w: RouteRow| route_of_row(w)),
        decreases rest.len(),
    {
        let w = rest.remove(0);
        assert(w == all[r@.len() as int]);
        r.push(
            StaticRouteConfig {
                id: w.id,
                destination: w.destination,
                gateway: w.gateway,
                interface: w.interface,
                metric: w.metric as i32,
                enabled: w.enabled,
                description: w.description,
                fib: w.fib as u32,
            },
        );
    }
    assert(all.take(all.len() as int) =~= all);
    r
}

/// What the DHCP tables hold, and the settings that hold where a key is absent.
#[derive(Clone, Debug)]
pub struct DhcpTables {
    pub config: Vec<KeyValue>,
    pub subnets: Vec<SubnetRow>,
    pub reservations: Vec<DhcpReservationConfig>,
    pub ddns: Vec<KeyValue>,
    pub ha: Vec<KeyValue>,
    pub default_global: DhcpGlobalSection,
    pub default_ddns: DhcpDdnsSection,
    pub default_ha: DhcpHaSection,
}

/// The DHCP section that the tables hold.
pub fn build_dhcp_section(t: DhcpTables) -> (d: DhcpSection)
    ensures
        d.global@ == global_of_rows(rows(t.config@), t.default_global@),
        d.subnets@.len() == t.subnets@.len(),
        forall|i: int| 0 <= i < d.subnets@.len() ==> is_subnet_of_row(#[trigger] d.subnets@[i], t.subnets@[i]),
        d.reservations == t.reservations,
        d.ddns@ == ddns_of_rows(rows(t.ddns@), t.default_ddns@),
        d.dhcp_ha@ == ha_of_rows(rows(t.ha@), t.default_ha@),
{
    let ghost all = t.subnets@;
    let mut rest = t.subnets;
    let mut subnets: Vec<DhcpSubnetConfig> = Vec::new();
    while rest.len() > 0
        invariant
            rest@.len() + subnets@.len() == all.len(),
            rest@ =~= all.skip(subnets@.len() as int),
            forall|i: int| 0 <= i < subnets@.len() ==> is_subnet_of_row(#[trigger] subnets@[i], all[i]),
        decreases rest.len(),
    {
        let r = rest.remove(0);
        assert(r == all[subnets@.len() as int]);
        subnets.push(subnet_from_row(r));
    }
    DhcpSection {
        global: load_global(&t.config, t.default_global),
        subnets,
        reservations: t.reservations,
        ddns: load_ddns(&t.ddns, t.default_ddns),
        dhcp_ha: load_ha(&t.ha, t.default_ha),
    }
}

// ---------------------------------------------------------------------------
// The whole configuration
// ---------------------------------------------------------------------------

/// What was read of the running firewall.
#[derive(Clone, Debug)]
pub struct CurrentState {
    /// The text of `/etc/hostname`, where it could be read.
    pub hostname_file: Option<String>,
    /// The text of `/etc/resolv.conf`, empty where it could not be read.
    pub resolv_conf: String,
    pub access_token_expiry_mins: i64,
    pub refresh_token_expiry_days: i64,
    pub require_totp: bool,
    pub rules: Vec<Rule>,
    pub nat: Vec<NatRule>,
    pub queues: Vec<QueueConfig>,
    pub rate_limits: Vec<RateLimitRule>,
    pub tunnels: Vec<WireguardTunnelConfig>,
    pub peers: Vec<TunnelPeer>,
    pub ipsec: Vec<IpsecSaConfig>,
    pub ipsec_tunnels: Vec<IpsecTunnel>,
    pub geoip: Vec<GeoIpEntry>,
    pub sni_rules: Vec<SniRule>,
    pub ja3: Vec<String>,
    pub carp_vips: Vec<CarpVip>,
    pub pfsync: Option<PfsyncConfig>,
    pub nodes: Vec<ClusterNode>,
    pub max_states: u64,
    pub dhcp: DhcpSection,
    pub aliases: Vec<AliasConfig>,
    pub static_routes: Vec<StaticRouteConfig>,
    pub resolver: ResolverConfig,
}

/// Every stored entity has an identifier.
pub open spec fn is_stored(s: CurrentState) -> bool {
    &&& rules_stored(s.rules@)
    &&& nats_stored(s.nat@)
    &&& queues_stored(s.queues@)
    &&& limits_stored(s.rate_limits@)
    &&& snis_stored(s.sni_rules@)
    &&& vips_stored(s.carp_vips@)
    &&& nodes_stored(s.nodes@)
}

/// `e` is the entry for the optional synchronisation `p`.
pub open spec fn is_pfsync_entry(e: Option<PfsyncEntry>, p: Option<PfsyncConfig>) -> bool {
    match p {
        Some(c) => e is Some && e->0.sync_interface == c.sync_interface && e->0.sync_peer == c.sync_peer && e->0.defer
            == c.defer,
        None => e is None,
    }
}

/// `t` is the tuning that a backup carries: the size of the state table.
pub open spec fn is_state_tuning(t: Seq<TuningEntry>, max_states: u64) -> bool {
    &&& t.len() == 1
    &&& t[0].key@ == "pf.max_states"@
    &&& t[0].value@ == dec(max_states as nat)
    &&& t[0].target@ == "sysctl"@
    &&& t[0].reason@ == "pf state table size"@
    &&& t[0].enabled
}

/// `c` is the configuration of the state `s`.
pub open spec fn is_config_of(c: FirewallConfig, s: CurrentState) -> bool {
    &&& c.schema_version == 1
    &&& c.system.hostname@ == hostname_of(crate::kv::option_view(s.hostname_file))
    &&& views(c.system.dns_servers@) == nameservers(lines(s.resolv_conf@))
    &&& c.system.wan_interface@.len() == 0
    &&& c.system.lan_interface is None
    &&& c.system.lan_ip is None
    &&& c.system.api_listen@ == "0.0.0.0"@
    &&& c.system.api_port == 8080
    &&& c.system.ui_enabled
    &&& c.auth == (AuthConfig {
        access_token_expiry_mins: s.access_token_expiry_mins,
        refresh_token_expiry_days: s.refresh_token_expiry_days,
        require_totp: s.require_totp,
        require_totp_for_oauth: false,
        auto_create_oauth_users: true,
    })
    &&& are_rule_entries(c.rules@, s.rules@)
    &&& are_nat_entries(c.nat@, s.nat@)
    &&& are_queue_entries(c.queues@, s.queues@)
    &&& are_limit_entries(c.rate_limits@, s.rate_limits@)
    &&& c.vpn.wireguard@.len() == s.tunnels@.len()
    &&& forall|i: int|
        0 <= i < s.tunnels@.len() ==> is_tunnel_with_peers(#[trigger] c.vpn.wireguard@[i], s.tunnels@[i], s.peers@)
    &&& c.vpn.ipsec == s.ipsec
    &&& c.vpn.ipsec_tunnels == s.ipsec_tunnels
    &&& c.geoip == s.geoip
    &&& c.tls.min_version@ == "tls12"@
    &&& !c.tls.block_self_signed
    &&& c.tls.block_expired
    &&& c.tls.block_weak_keys
    &&& c.tls.blocked_ja3 == s.ja3
    &&& are_sni_entries(c.tls.sni_rules@, s.sni_rules@)
    &&& are_vip_entries(c.ha.carp_vips@, s.carp_vips@)
    &&& is_pfsync_entry(c.ha.pfsync, s.pfsync)
    &&& are_node_entries(c.ha.nodes@, s.nodes@)
    &&& is_state_tuning(c.tuning@, s.max_states)
    &&& c.dhcp == s.dhcp
    &&& c.aliases == s.aliases
    &&& c.static_routes == s.static_routes
    &&& c.dns_resolver == Some(s.resolver)
}

/// Puts the configuration of the running firewall together.
pub fn build_current_config(s: CurrentState) -> (c: FirewallConfig)
    requires
        is_stored(s),
    ensures
        is_config_of(c, s),
{
    let pfsync = match s.pfsync {
        Some(p) => Some(PfsyncEntry { sync_interface: p.sync_interface, sync_peer: p.sync_peer, defer: p.defer }),
        None => None,
    };
    let entry = TuningEntry {
        key: "pf.max_states".to_owned(),
        value: fmt_u64(s.max_states),
        target: "sysctl".to_owned(),
        reason: "pf state table size".to_owned(),
        enabled: true,
    };
    let mut tuning: Vec<TuningEntry> = Vec::new();
    tuning.push(entry);
    FirewallConfig {
        schema_version: 1,
        system: SystemConfig {
            hostname: hostname(&s.hostname_file),
            dns_servers: resolv_nameservers(s.resolv_conf.as_str()),
            wan_interface: String::new(),
            lan_interface: None,
            lan_ip: None,
            api_listen: "0.0.0.0".to_owned(),
            api_port: 8080,
            ui_enabled: true,
        },
        auth: AuthConfig {
            access_token_expiry_mins: s.access_token_expiry_mins,
            refresh_token_expiry_days: s.refresh_token_expiry_days,
            require_totp: s.require_totp,
            require_totp_for_oauth: false,
            auto_create_oauth_users: true,
        },
        rules: rule_entries(&s.rules),
        nat: nat_entries(&s.nat),
        queues: queue_entries(&s.queues),
        rate_limits: limit_entries(&s.rate_limits),
        vpn: VpnConfig {
            wireguard: attach_peers(s.tunnels, &s.peers),
            ipsec: s.ipsec,
            ipsec_tunnels: s.ipsec_tunnels,
        },
        geoip: s.geoip,
        tls: TlsConfig {
            min_version: "tls12".to_owned(),
            block_self_signed: false,
            block_expired: true,
            block_weak_keys: true,
            blocked_ja3: s.ja3,
            sni_rules: sni_entries(&s.sni_rules),
        },
        ha: HaConfig { carp_vips: vip_entries(&s.carp_vips), pfsync, nodes: node_entries(&s.nodes) },
        tuning,
        dhcp: s.dhcp,
        aliases: s.aliases,
        static_routes: s.static_routes,
        dns_resolver: Some(s.resolver),
    }
}

/// The part of the running configuration that a timed rollback puts back:
/// rules, translations, aliases and routes. Everything else is as in `rest`.
pub fn capture_runtime_snapshot(
    rules: &Vec<Rule>,
    translations: &Vec<NatRule>,
    aliases: Vec<AliasConfig>,
    static_routes: Vec<StaticRouteConfig>,
    rest: FirewallConfig,
) -> (c: FirewallConfig)
    requires
        rules_stored(rules@),
        nats_stored(translations@),
    ensures
        are_rule_entries(c.rules@, rules@),
        are_nat_entries(c.nat@, translations@),
        c.aliases == aliases,
        c.static_routes == static_routes,
        c == (FirewallConfig { rules: c.rules, nat: c.nat, aliases, static_routes, ..rest }),
{
    let mut c = rest;
    c.rules = rule_entries(rules);
    c.nat = nat_entries(translations);
    c.aliases = aliases;
    c.static_routes = static_routes;
    c
}

/// A state as the engines keep it: what they have accepted is valid.
pub open spec fn is_valid_state(s: CurrentState) -> bool {
    let none = Map::<Seq<char>, Option<String>>::empty();
    &&& forall|i: int| 0 <= i < s.rules@.len() ==> (#[trigger] s.rules@[i]).priority <= MAX_PRIORITY
    &&& forall|i: int| 0 <= i < s.aliases@.len() ==> alias_restorable(#[trigger] s.aliases@[i], none)
    &&& forall|i: int| 0 <= i < s.static_routes@.len() ==> route_restorable(#[trigger] s.static_routes@[i], none)
    &&& forall|i: int| 0 <= i < s.geoip@.len() ==> geoip_restorable(#[trigger] s.geoip@[i], none)
    &&& forall|i: int| 0 <= i < s.ipsec@.len() ==> sa_restorable(#[trigger] s.ipsec@[i], none)
    &&& forall|i: int|
        0 <= i < s.tunnels@.len() ==> (#[trigger] s.tunnels@[i]).address.parsed is Some && (s.tunnels@[i].address6 is Some
            ==> s.tunnels@[i].address6->0.parsed is Some)
    &&& forall|i: int, j: int|
        0 <= i < j < s.tunnels@.len() ==> (#[trigger] s.tunnels@[i]).listen_port != (
        #[trigger] s.tunnels@[j]).listen_port
    &&& forall|i: int| 0 <= i < s.peers@.len() ==> addresses_parse((#[trigger] s.peers@[i]).peer.allowed_ips@)
}

proof fn lemma_peers_of_parse(id: Seq<char>, v: Seq<TunnelPeer>)
    requires
        forall|i: int| 0 <= i < v.len() ==> addresses_parse((#[trigger] v[i]).peer.allowed_ips@),
    ensures
        peers_parse(peers_of(id, v)),
    decreases v.len(),
{
    if v.len() > 0 {
        let init = v.drop_last();
        assert forall|i: int| 0 <= i < init.len() implies addresses_parse((#[trigger] init[i]).peer.allowed_ips@) by {
            assert(init[i] == v[i]);
        }
        lemma_peers_of_parse(id, init);
        assert(addresses_parse(v[v.len() - 1].peer.allowed_ips@));
    }
}

/// A backup of the running configuration can be restored where it was taken.
pub proof fn current_config_is_restorable(s: CurrentState, c: FirewallConfig)
    requires
        is_config_of(c, s),
        is_valid_state(s),
    ensures
        restorable(c, Map::<Seq<char>, Option<String>>::empty()),
{
    let m = Map::<Seq<char>, Option<String>>::empty();
    assert forall|i: int| 0 <= i < c.rules@.len() implies rule_restorable(#[trigger] c.rules@[i], m) by {
        assert(is_rule_entry(c.rules@[i], s.rules@[i]));
        assert(s.rules@[i].priority <= MAX_PRIORITY);
    }
    assert forall|i: int| 0 <= i < c.nat@.len() implies nat_restorable(#[trigger] c.nat@[i], m) by {
        assert(is_nat_entry(c.nat@[i], s.nat@[i]));
    }
    assert forall|i: int| 0 <= i < c.vpn.wireguard@.len() implies tunnel_restorable(#[trigger] c.vpn.wireguard@[i], m) by {
        let t = c.vpn.wireguard@[i];
        assert(is_tunnel_with_peers(t, s.tunnels@[i], s.peers@));
        assert(s.tunnels@[i].address.parsed is Some);
        lemma_peers_of_parse(s.tunnels@[i].id@, s.peers@);
        let p = peers_of(s.tunnels@[i].id@, s.peers@);
        assert forall|k: int| 0 <= k < t.peers@.len() implies addresses_parse((#[trigger] t.peers@[k]).allowed_ips@) by {
            assert(same_peer(t.peers@[k], p[k]));
            assert(addresses_parse(p[k].allowed_ips@));
        }
    }
    assert(ports_distinct(c.vpn.wireguard@, m)) by {
        assert forall|i: int, j: int| !#[trigger] crate::backup::validate::ports_clash(c.vpn.wireguard@, m, i, j) by {
            if 0 <= i < j < c.vpn.wireguard@.len() {
                assert(is_tunnel_with_peers(c.vpn.wireguard@[i], s.tunnels@[i], s.peers@));
                assert(is_tunnel_with_peers(c.vpn.wireguard@[j], s.tunnels@[j], s.peers@));
                assert(s.tunnels@[i].listen_port != s.tunnels@[j].listen_port);
            }
        }
    }
}

// ---------------------------------------------------------------------------
// What a backup says
// ---------------------------------------------------------------------------

/// An address is written as it reads, and reads as it is.
pub proof fn address_is_written(c: ConfigAddress, a: Address)
    requires
        is_address_entry(c, a),
    ensures
        a == Address::Any ==> c.text@ == "any"@,
        a matches Address::Literal(t) ==> c.text@ == t@,
        c.parsed == Some(a),
{
}

/// The bounds of a range of ports are its first and its last port.
pub open spec fn bounds(p: Option<PortRange>, first: Option<u16>, last: Option<u16>) -> bool {
    match p {
        Some(r) => first == Some(r.start) && last == Some(r.end),
        None => first is None && last is None,
    }
}

/// A rule is written in each of its parts: the source as the source, the target
/// as the target.
pub proof fn rule_is_written(c: RuleConfig, r: Rule)
    requires
        is_rule_entry(c, r),
    ensures
        r.id matches EntityId::Kept(t) && t@ == c.id@,
        c.priority == r.priority,
        c.action == r.action,
        c.direction == r.direction,
        c.protocol == r.protocol,
        c.interface == r.interface,
        c.src_addr is Some && c.src_addr->0.parsed == Some(r.rule_match.src_addr),
        c.dst_addr is Some && c.dst_addr->0.parsed == Some(r.rule_match.dst_addr),
        bounds(r.rule_match.src_port, c.src_port_start, c.src_port_end),
        bounds(r.rule_match.dst_port, c.dst_port_start, c.dst_port_end),
        c.log == r.log,
        c.quick == r.quick,
        c.label == r.label,
        c.state_tracking == r.state_tracking,
        c.status == r.status,
        c.ip_version == r.ip_version,
        c.src_invert == r.src_invert,
        c.dst_invert == r.dst_invert,
        c.schedule_id == r.schedule_id,
        c.gateway == r.gateway,
{
}

/// A translation is written in each of its parts.
pub proof fn translation_is_written(c: NatRuleConfig, n: NatRule)
    requires
        is_nat_entry(c, n),
    ensures
        n.id matches EntityId::Kept(t) && t@ == c.id@,
        c.nat_type == n.nat_type,
        c.interface == n.interface,
        c.protocol == n.protocol,
        c.src_addr is Some && c.src_addr->0.parsed == Some(n.src_addr),
        c.dst_addr is Some && c.dst_addr->0.parsed == Some(n.dst_addr),
        c.redirect_addr.parsed == Some(n.redirect_addr),
        bounds(n.src_port, c.src_port_start, c.src_port_end),
        bounds(n.dst_port, c.dst_port_start, c.dst_port_end),
        bounds(n.redirect_port, c.redirect_port_start, c.redirect_port_end),
        c.label == n.label,
        c.status == n.status,
{
}

/// So are queues, limits, rules for server names, shared addresses and nodes.
pub proof fn entries_are_written(
    qc: QueueConfigEntry,
    q: QueueConfig,
    lc: RateLimitEntry,
    l: RateLimitRule,
    sc: SniRuleConfig,
    s: SniRule,
    vc: CarpVipConfig,
    v: CarpVip,
    nc: ClusterNodeConfig,
    n: ClusterNode,
)
    ensures
        is_queue_entry(qc, q) <==> q.id@ == IdView::Kept(qc.id@) && qc.name == q.name && qc.interface == q.interface
            && qc.queue_type
            == q.queue_type && qc.bandwidth_value == q.bandwidth_value && qc.bandwidth_unit == q.bandwidth_unit
                && qc.traffic_class
            == q.traffic_class && qc.bandwidth_pct == q.bandwidth_pct && qc.default == q.default
                && qc.status == q.status,
        is_limit_entry(lc, l) <==> l.id@ == IdView::Kept(lc.id@) && lc.name == l.name && lc.interface == l.interface
            && lc.protocol
            == l.protocol && bounds(l.dst_port, lc.dst_port_start, lc.dst_port_end)
                && lc.max_connections == l.max_connections
            && lc.window_secs == l.window_secs && lc.overload_table == l.overload_table
                && lc.flush_states == l.flush_states
            && lc.status == l.status,
        is_sni_entry(sc, s) <==> s.id@ == IdView::Kept(sc.id@) && sc.pattern == s.pattern && sc.action == s.action
            && sc.label
            == s.label,
        is_vip_entry(vc, v) <==> v.id@ == IdView::Kept(vc.id@) && vc.vhid == v.vhid && vc.virtual_ip == v.virtual_ip
            && vc.prefix
            == v.prefix && vc.interface == v.interface && vc.password == v.password,
        is_node_entry(nc, n) <==> n.id@ == IdView::Kept(nc.id@) && nc.name == n.name && nc.address == n.address
            && nc.role.text
            == n.role && nc.role.valid,
{
}

/// The peers of a tunnel are those that name it, in their order.
pub proof fn peers_belong_to_their_tunnel(id: Seq<char>, a: Seq<TunnelPeer>, b: Seq<TunnelPeer>, x: TunnelPeer)
    ensures
        peers_of(id, Seq::<TunnelPeer>::empty()) == Seq::<WireguardPeerConfig>::empty(),
        peers_of(id, a + b) == peers_of(id, a) + peers_of(id, b),
        x.tunnel_id@ == id ==> peers_of(id,
            Seq::<TunnelPeer>::empty().push(x)) == Seq::<WireguardPeerConfig>::empty().push(x.peer),
        x.tunnel_id@ != id ==> peers_of(id, Seq::<TunnelPeer>::empty().push(x)) == Seq::<WireguardPeerConfig>::empty(),
    decreases b.len(),
{
    reveal_with_fuel(peers_of, 2);
    assert(Seq::<TunnelPeer>::empty().push(x).drop_last() =~= Seq::<TunnelPeer>::empty());
    if b.len() == 0 {
        assert(a + b =~= a);
        assert(peers_of(id, a) + peers_of(id, b) =~= peers_of(id, a));
    } else {
        assert((a + b).drop_last() =~= a + b.drop_last());
        peers_belong_to_their_tunnel(id, a, b.drop_last(), x);
        assert(peers_of(id, a + b) =~= peers_of(id, a) + peers_of(id, b));
    }
}

/// A tunnel is written with its peers and otherwise as it is.
pub proof fn tunnel_is_written_with_its_peers(r: WireguardTunnelConfig, t: WireguardTunnelConfig, v: Seq<TunnelPeer>,
    i: int)
    requires
        is_tunnel_with_peers(r, t, v),
    ensures
        r == (WireguardTunnelConfig { peers: r.peers, ..t }),
        r.peers@.len() == peers_of(t.id@, v).len(),
        0 <= i < r.peers@.len() ==> {
            let p = peers_of(t.id@, v)[i];
            r.peers@[i].id == p.id && r.peers@[i].name == p.name && r.peers@[i].public_key == p.public_key
                && r.peers@[i].preshared_key == p.preshared_key && r.peers@[i].endpoint == p.endpoint
                && r.peers@[i].allowed_ips@ == p.allowed_ips@
                    && r.peers@[i].persistent_keepalive == p.persistent_keepalive
        },
{
    if 0 <= i < r.peers@.len() {
        assert(same_peer(r.peers@[i], peers_of(t.id@, v)[i]));
    }
}

/// The name servers are read one after the other.
pub proof fn name_servers_in_order(a: Seq<Seq<char>>, b: Seq<Seq<char>>)
    ensures
        nameservers(Seq::<Seq<char>>::empty()) == Seq::<Seq<char>>::empty(),
        nameservers(a + b) == nameservers(a) + nameservers(b),
    decreases b.len(),
{
    if b.len() == 0 {
        assert(a + b =~= a);
        assert(nameservers(a) + nameservers(b) =~= nameservers(a));
    } else {
        assert((a + b).drop_last() =~= a + b.drop_last());
        name_servers_in_order(a, b.drop_last());
        assert(nameservers(a + b) =~= nameservers(a) + nameservers(b));
    }
}

/// A line names the server that stands behind the word, where the line starts
/// with it.
pub proof fn name_server_of_a_line(x: Seq<char>, ns: Seq<char>)
    ensures
        x == "nameserver"@ + ns ==> nameservers(Seq::<Seq<char>>::empty().push(x))
            == Seq::<Seq<char>>::empty().push(trim(ns)),
        !has_prefix(x, "nameserver"@) ==> nameservers(Seq::<Seq<char>>::empty().push(x)) == Seq::<Seq<char>>::empty(),
{
    reveal_with_fuel(nameservers, 2);
    assert(Seq::<Seq<char>>::empty().push(x).drop_last() =~= Seq::<Seq<char>>::empty());
    if x == "nameserver"@ + ns {
        assert(x.take("nameserver"@.len() as int) =~= "nameserver"@);
        assert(x.skip("nameserver"@.len() as int) =~= ns);
    }
}

/// The host is named by its file, without white space around the name; without
/// a name it is the firewall.
pub proof fn host_is_named_by_its_file(t: Seq<char>)
    ensures
        trim(t).len() > 0 ==> hostname_of(Some(t)) == trim(t),
        trim(t).len() == 0 ==> hostname_of(Some(t)) == "aifw"@,
        hostname_of(None) == "aifw"@,
{
}

/// A stored subnet is read in each of its parts.
pub proof fn subnet_is_read(s: DhcpSubnetConfig, r: SubnetRow)
    requires
        is_subnet_of_row(s, r),
    ensures
        s.id == r.id,
        s.network == r.network,
        s.pool_start == r.pool_start,
        s.pool_end == r.pool_end,
        s.gateway == r.gateway,
        s.dns_servers == r.dns_servers,
        s.domain_name == r.domain_name,
        s.lease_time is Some <==> r.lease_time is Some,
        r.lease_time is Some && 0 <= r.lease_time->0 <= u32::MAX ==> s.lease_time->0 == r.lease_time->0,
        s.max_lease_time is Some <==> r.max_lease_time is Some,
        r.max_lease_time is Some && 0 <= r.max_lease_time->0 <= u32::MAX ==> s.max_lease_time->0 == r.max_lease_time->0,
        s.renewal_time is Some <==> r.renewal_time is Some,
        r.renewal_time is Some && 0 <= r.renewal_time->0 <= u32::MAX ==> s.renewal_time->0 == r.renewal_time->0,
        s.rebinding_time is Some <==> r.rebinding_time is Some,
        r.rebinding_time is Some && 0 <= r.rebinding_time->0 <= u32::MAX ==> s.rebinding_time->0 == r.rebinding_time->0,
        s.preferred_time is Some <==> r.preferred_time is Some,
        r.preferred_time is Some && 0 <= r.preferred_time->0 <= u32::MAX ==> s.preferred_time->0 == r.preferred_time->0,
        r.subnet_type is Some ==> s.subnet_type@ == r.subnet_type->0@,
        r.subnet_type is None ==> s.subnet_type@ == "address"@,
        s.delegated_length is Some <==> r.delegated_length is Some,
        r.delegated_length is Some && 0 <= r.delegated_length->0 <= 255
            ==> s.delegated_length->0 == r.delegated_length->0,
        s.enabled == r.enabled,
        s.description == r.description,
        r.trusted_relays is None ==> s.trusted_relays@.len() == 0,
        r.trusted_relays is Some && texts_of_json(r.trusted_relays->0@) is Some
            ==> views(s.trusted_relays@) == texts_of_json(
            r.trusted_relays->0@,
        )->0,
        r.trusted_relays is Some && texts_of_json(r.trusted_relays->0@) is None ==> s.trusted_relays@.len() == 0,
        s.ntp_servers == r.ntp_servers,
        s.options == r.options,
        s.created_at == r.created_at,
{
    assert(views(s.trusted_relays@).len() == s.trusted_relays@.len());
}

/// A stored route is read in each of its parts.
pub proof fn route_is_read(r: RouteRow)
    ensures
        ({
            let c = route_of_row(r);
            &&& c.id == r.id
            &&& c.destination == r.destination
            &&& c.gateway == r.gateway
            &&& c.interface == r.interface
            &&& i32::MIN <= r.metric <= i32::MAX ==> c.metric == r.metric
            &&& c.enabled == r.enabled
            &&& c.description == r.description
            &&& 0 <= r.fib <= u32::MAX ==> c.fib == r.fib
        }),
{
}

/// A backup says of the machine what is there: each part under its own name.
pub proof fn backup_says_what_is_there(c: FirewallConfig, s: CurrentState, i: int)
    requires
        is_config_of(c, s),
    ensures
        c.schema_version == 1,
        views(c.system.dns_servers@) == nameservers(lines(s.resolv_conf@)),
        c.system.api_listen@ == "0.0.0.0"@,
        c.system.api_port == 8080,
        c.system.ui_enabled,
        c.system.wan_interface@.len() == 0 && c.system.lan_interface is None && c.system.lan_ip is None,
        c.auth.access_token_expiry_mins == s.access_token_expiry_mins,
        c.auth.refresh_token_expiry_days == s.refresh_token_expiry_days,
        c.auth.require_totp == s.require_totp,
        !c.auth.require_totp_for_oauth && c.auth.auto_create_oauth_users,
        c.rules@.len() == s.rules@.len(),
        0 <= i < s.rules@.len() ==> is_rule_entry(c.rules@[i], s.rules@[i]),
        c.nat@.len() == s.nat@.len(),
        0 <= i < s.nat@.len() ==> is_nat_entry(c.nat@[i], s.nat@[i]),
        c.queues@.len() == s.queues@.len(),
        0 <= i < s.queues@.len() ==> is_queue_entry(c.queues@[i], s.queues@[i]),
        c.rate_limits@.len() == s.rate_limits@.len(),
        0 <= i < s.rate_limits@.len() ==> is_limit_entry(c.rate_limits@[i], s.rate_limits@[i]),
        c.vpn.wireguard@.len() == s.tunnels@.len(),
        0 <= i < s.tunnels@.len() ==> is_tunnel_with_peers(c.vpn.wireguard@[i], s.tunnels@[i], s.peers@),
        c.vpn.ipsec == s.ipsec,
        c.vpn.ipsec_tunnels == s.ipsec_tunnels,
        c.geoip == s.geoip,
        c.tls.min_version@ == "tls12"@,
        !c.tls.block_self_signed && c.tls.block_expired && c.tls.block_weak_keys,
        c.tls.blocked_ja3 == s.ja3,
        c.tls.sni_rules@.len() == s.sni_rules@.len(),
        0 <= i < s.sni_rules@.len() ==> is_sni_entry(c.tls.sni_rules@[i], s.sni_rules@[i]),
        c.ha.carp_vips@.len() == s.carp_vips@.len(),
        0 <= i < s.carp_vips@.len() ==> is_vip_entry(c.ha.carp_vips@[i], s.carp_vips@[i]),
        c.ha.pfsync is Some <==> s.pfsync is Some,
        s.pfsync is Some ==> c.ha.pfsync->0.sync_interface == s.pfsync->0.sync_interface && c.ha.pfsync->0.sync_peer
            == s.pfsync->0.sync_peer && c.ha.pfsync->0.defer == s.pfsync->0.defer,
        c.ha.nodes@.len() == s.nodes@.len(),
        0 <= i < s.nodes@.len() ==> is_node_entry(c.ha.nodes@[i], s.nodes@[i]),
        c.tuning@.len() == 1 && c.tuning@[0].key@ == "pf.max_states"@ && c.tuning@[0].value@ == dec(s.max_states as nat)
            && c.tuning@[0].enabled && c.tuning@[0].target@ == "sysctl"@
                && c.tuning@[0].reason@ == "pf state table size"@,
        c.dhcp == s.dhcp,
        c.aliases == s.aliases,
        c.static_routes == s.static_routes,
        c.dns_resolver == Some(s.resolver),
        c.system.hostname@ == hostname_of(crate::kv::option_view(s.hostname_file)),
{
}

} // verus!
