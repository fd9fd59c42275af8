//! The entities that the entries of a backup stand for.

use vstd::prelude::*;

use crate::backup::model::{
    port_range, range_of, Address, CarpVipConfig, ClusterNodeConfig, ConfigAddress, NatRuleConfig, PfsyncEntry,
    PortRange, QueueConfigEntry, RateLimitEntry, RuleConfig, SniRuleConfig,
};
use crate::identifiers::{entity_id, id_of, EntityId};
use crate::net::{ip_ok, is_ip};

verus! {

/// What a rule matches.
#[derive(Clone, Debug)]
pub struct RuleMatch {
    pub src_addr: Address,
    pub src_port: Option<PortRange>,
    pub dst_addr: Address,
    pub dst_port: Option<PortRange>,
}

/// A filter rule.
#[derive(Clone, Debug)]
pub struct Rule {
    pub id: EntityId,
    pub priority: i32,
    pub action: String,
    pub direction: String,
    pub ip_version: String,
    pub interface: Option<String>,
    pub protocol: String,
    pub rule_match: RuleMatch,
    pub src_invert: bool,
    pub dst_invert: bool,
    pub log: bool,
    pub quick: bool,
    pub label: Option<String>,
    pub description: Option<String>,
    pub gateway: Option<String>,
    pub state_tracking: String,
    pub status: String,
    pub schedule_id: Option<String>,
}

/// A translation rule.
#[derive(Clone, Debug)]
pub struct NatRule {
    pub id: EntityId,
    pub nat_type: String,
    pub interface: String,
    pub protocol: String,
    pub src_addr: Address,
    pub src_port: Option<PortRange>,
    pub dst_addr: Address,
    pub dst_port: Option<PortRange>,
    pub redirect_addr: Address,
    pub redirect_port: Option<PortRange>,
    pub label: Option<String>,
    pub status: String,
}

/// A traffic queue.
#[derive(Clone, Debug)]
pub struct QueueConfig {
    pub id: EntityId,
    pub interface: String,
    pub queue_type: String,
    pub bandwidth_value: u64,
    pub bandwidth_unit: String,
    pub name: String,
    pub traffic_class: String,
    pub bandwidth_pct: Option<u8>,
    pub default: bool,
    pub status: String,
}

/// A limit on connections.
#[derive(Clone, Debug)]
pub struct RateLimitRule {
    pub id: EntityId,
    pub name: String,
    pub interface: Option<String>,
    pub protocol: String,
    pub src_addr: Address,
    pub dst_addr: Address,
    pub dst_port: Option<PortRange>,
    pub max_connections: u32,
    pub window_secs: u32,
    pub overload_table: String,
    pub flush_states: bool,
    pub status: String,
}

/// A rule on TLS server names.
#[derive(Clone, Debug)]
pub struct SniRule {
    pub id: EntityId,
    pub pattern: String,
    pub action: String,
    pub label: Option<String>,
}

/// A shared address of a cluster.
#[derive(Clone, Debug)]
pub struct CarpVip {
    pub id: EntityId,
    pub vhid: u8,
    pub virtual_ip: String,
    pub prefix: u8,
    pub interface: String,
    pub password: String,
}

/// The synchronisation of connection states.
#[derive(Clone, Debug)]
pub struct PfsyncConfig {
    pub sync_interface: String,
    pub sync_peer: Option<String>,
    pub defer: bool,
}

/// A node of a cluster.
#[derive(Clone, Debug)]
pub struct ClusterNode {
    pub id: EntityId,
    pub name: String,
    pub address: String,
    pub role: String,
}

/// A copy of an address.
pub fn copy_address(a: &Address) -> (r: Address)
    ensures
        r == *a,
{
    match a {
        Address::Any => Address::Any,
        Address::Literal(t) => Address::Literal(t.clone()),
    }
}

/// The address that an optional address of a backup stands for: any address
/// where there is none, no address where it could not be parsed.
pub open spec fn address_of(a: Option<ConfigAddress>) -> Option<Address> {
    match a {
        Some(c) => c.parsed,
        None => Some(Address::Any),
    }
}

fn take_address(a: &Option<ConfigAddress>) -> (r: Option<Address>)
    ensures
        r == address_of(*a),
{
    match a {
        Some(c) => match &c.parsed {
            Some(p) => Some(copy_address(p)),
            None => None,
        },
        None => Some(Address::Any),
    }
}

/// Both addresses of a rule are addresses.
pub open spec fn rule_parses(rc: RuleConfig) -> bool {
    address_of(rc.src_addr) is Some && address_of(rc.dst_addr) is Some
}

/// `r` is the rule that `rc` stands for.
pub open spec fn is_rule_of(r: Rule, rc: RuleConfig) -> bool {
    &&& r.id@ == id_of(rc.id@)
    &&& r.priority == rc.priority
    &&& r.action == rc.action
    &&& r.direction == rc.direction
    &&& r.ip_version == rc.ip_version
    &&& r.interface == rc.interface
    &&& r.protocol == rc.protocol
    &&& Some(r.rule_match.src_addr) == address_of(rc.src_addr)
    &&& r.rule_match.src_port == range_of(rc.src_port_start, rc.src_port_end)
    &&& Some(r.rule_match.dst_addr) == address_of(rc.dst_addr)
    &&& r.rule_match.dst_port == range_of(rc.dst_port_start, rc.dst_port_end)
    &&& r.src_invert == rc.src_invert
    &&& r.dst_invert == rc.dst_invert
    &&& r.log == rc.log
    &&& r.quick == rc.quick
    &&& r.label == rc.label
    &&& r.description is None
    &&& r.gateway == rc.gateway
    &&& r.state_tracking == rc.state_tracking
    &&& r.status == rc.status
    &&& r.schedule_id == rc.schedule_id
}

/// The rule that an entry stands for; none where an address is none.
pub fn rule_from_config(rc: &RuleConfig) -> (r: Option<Rule>)
    ensures
        r is Some <==> rule_parses(*rc),
        r matches Some(x) ==> is_rule_of(x, *rc),
{
    let (src_addr, dst_addr) = match (take_address(&rc.src_addr), take_address(&rc.dst_addr)) {
        (Some(s), Some(d)) => (s, d),
        _ => {
            return None;
        },
    };
    Some(
        Rule {
            id: entity_id(rc.id.as_str()),
            priority: rc.priority,
            action: rc.action.clone(),
            direction: rc.direction.clone(),
            ip_version: rc.ip_version.clone(),
            interface: rc.interface.clone(),
            protocol: rc.protocol.clone(),
            rule_match: RuleMatch {
                src_addr,
                src_port: port_range(rc.src_port_start, rc.src_port_end),
                dst_addr,
                dst_port: port_range(rc.dst_port_start, rc.dst_port_end),
            },
            src_invert: rc.src_invert,
            dst_invert: rc.dst_invert,
            log: rc.log,
            quick: rc.quick,
            label: rc.label.clone(),
            description: None,
            gateway: rc.gateway.clone(),
            state_tracking: rc.state_tracking.clone(),
            status: rc.status.clone(),
            schedule_id: rc.schedule_id.clone(),
        },
    )
}

/// The three addresses of a translation rule are addresses.
pub open spec fn nat_parses(nc: NatRuleConfig) -> bool {
    address_of(nc.src_addr) is Some && address_of(nc.dst_addr) is Some && nc.redirect_addr.parsed is Some
}

/// `r` is the translation rule that `nc` stands for.
pub open spec fn is_nat_of(r: NatRule, nc: NatRuleConfig) -> bool {
    &&& r.id@ == id_of(nc.id@)
    &&& r.nat_type == nc.nat_type
    &&& r.interface == nc.interface
    &&& r.protocol == nc.protocol
    &&& Some(r.src_addr) == address_of(nc.src_addr)
    &&& r.src_port == range_of(nc.src_port_start, nc.src_port_end)
    &&& Some(r.dst_addr) == address_of(nc.dst_addr)
    &&& r.dst_port == range_of(nc.dst_port_start, nc.dst_port_end)
    &&& Some(r.redirect_addr) == nc.redirect_addr.parsed
    &&& r.redirect_port == range_of(nc.redirect_port_start, nc.redirect_port_end)
    &&& r.label == nc.label
    &&& r.status == nc.status
}

/// The translation rule that an entry stands for; none where an address is
/// none.
pub fn nat_from_config(nc: &NatRuleConfig) -> (r: Option<NatRule>)
    ensures
        r is Some <==> nat_parses(*nc),
        r matches Some(x) ==> is_nat_of(x, *nc),
{
    let (src_addr, dst_addr) = match (take_address(&nc.src_addr), take_address(&nc.dst_addr)) {
        (Some(s), Some(d)) => (s, d),
        _ => {
            return None;
        },
    };
    let redirect_addr = match &nc.redirect_addr.parsed {
        Some(a) => copy_address(a),
        None => {
            return None;
        },
    };
    Some(
        NatRule {
            id: entity_id(nc.id.as_str()),
            nat_type: nc.nat_type.clone(),
            interface: nc.interface.clone(),
            protocol: nc.protocol.clone(),
            src_addr,
            src_port: port_range(nc.src_port_start, nc.src_port_end),
            dst_addr,
            dst_port: port_range(nc.dst_port_start, nc.dst_port_end),
            redirect_addr,
            redirect_port: port_range(nc.redirect_port_start, nc.redirect_port_end),
            label: nc.label.clone(),
            status: nc.status.clone(),
        },
    )
}

/// `q` is the queue that `qc` stands for.
pub open spec fn is_queue_of(q: QueueConfig, qc: QueueConfigEntry) -> bool {
    &&& q.id@ == id_of(qc.id@)
    &&& q.interface == qc.interface
    &&& q.queue_type == qc.queue_type
    &&& q.bandwidth_value == qc.bandwidth_value
    &&& q.bandwidth_unit == qc.bandwidth_unit
    &&& q.name == qc.name
    &&& q.traffic_class == qc.traffic_class
    &&& q.bandwidth_pct == qc.bandwidth_pct
    &&& q.default == qc.default
    &&& q.status == qc.status
}

/// The queue that an entry stands for.
pub fn queue_from_config(qc: &QueueConfigEntry) -> (q: QueueConfig)
    ensures
        is_queue_of(q, *qc),
{
    QueueConfig {
        id: entity_id(qc.id.as_str()),
        interface: qc.interface.clone(),
        queue_type: qc.queue_type.clone(),
        bandwidth_value: qc.bandwidth_value,
        bandwidth_unit: qc.bandwidth_unit.clone(),
        name: qc.name.clone(),
        traffic_class: qc.traffic_class.clone(),
        bandwidth_pct: qc.bandwidth_pct,
        default: qc.default,
        status: qc.status.clone(),
    }
}

/// `r` is the limit that `rc` stands for: it holds for any source and
/// destination.
pub open spec fn is_limit_of(r: RateLimitRule, rc: RateLimitEntry) -> bool {
    &&& r.id@ == id_of(rc.id@)
    &&& r.name == rc.name
    &&& r.interface == rc.interface
    &&& r.protocol == rc.protocol
    &&& r.src_addr == Address::Any
    &&& r.dst_addr == Address::Any
    &&& r.dst_port == range_of(rc.dst_port_start, rc.dst_port_end)
    &&& r.max_connections == rc.max_connections
    &&& r.window_secs == rc.window_secs
    &&& r.overload_table == rc.overload_table
    &&& r.flush_states == rc.flush_states
    &&& r.status == rc.status
}

/// The limit that an entry stands for.
pub fn rate_limit_from_config(rc: &RateLimitEntry) -> (r: RateLimitRule)
    ensures
        is_limit_of(r, *rc),
{
    RateLimitRule {
        id: entity_id(rc.id.as_str()),
        name: rc.name.clone(),
        interface: rc.interface.clone(),
        protocol: rc.protocol.clone(),
        src_addr: Address::Any,
        dst_addr: Address::Any,
        dst_port: port_range(rc.dst_port_start, rc.dst_port_end),
        max_connections: rc.max_connections,
        window_secs: rc.window_secs,
        overload_table: rc.overload_table.clone(),
        flush_states: rc.flush_states,
        status: rc.status.clone(),
    }
}

/// `r` is the rule on server names that `sc` stands for.
pub open spec fn is_sni_of(r: SniRule, sc: SniRuleConfig) -> bool {
    r.id@ == id_of(sc.id@) && r.pattern == sc.pattern && r.action == sc.action && r.label == sc.label
}

/// The rule on server names that an entry stands for.
pub fn sni_rule_from_config(sc: &SniRuleConfig) -> (r: SniRule)
    ensures
        is_sni_of(r, *sc),
{
    SniRule {
        id: entity_id(sc.id.as_str()),
        pattern: sc.pattern.clone(),
        action: sc.action.clone(),
        label: sc.label.clone(),
    }
}

/// `v` is the shared address that `vc` stands for.
pub open spec fn is_vip_of(v: CarpVip, vc: CarpVipConfig) -> bool {
    &&& v.id@ == id_of(vc.id@)
    &&& v.vhid == vc.vhid
    &&& v.virtual_ip == vc.virtual_ip
    &&& v.prefix == vc.prefix
    &&& v.interface == vc.interface
    &&& v.password == vc.password
}

/// The shared address that an entry stands for; none where it is no address.
pub fn carp_vip_from_config(vc: &CarpVipConfig) -> (r: Option<CarpVip>)
    ensures
        r is Some <==> is_ip(vc.virtual_ip@),
        r matches Some(v) ==> is_vip_of(v, *vc),
{
    if !ip_ok(vc.virtual_ip.as_str()) {
        return None;
    }
    Some(
        CarpVip {
            id: entity_id(vc.id.as_str()),
            vhid: vc.vhid,
            virtual_ip: vc.virtual_ip.clone(),
            prefix: vc.prefix,
            interface: vc.interface.clone(),
            password: vc.password.clone(),
        },
    )
}

/// A peer that is stated is an address.
pub open spec fn pfsync_parses(pc: PfsyncEntry) -> bool {
    pc.sync_peer is Some ==> is_ip(pc.sync_peer->0@)
}

/// The synchronisation that an entry stands for; none where its peer is no
/// address.
pub fn pfsync_from_config(pc: &PfsyncEntry) -> (r: Option<PfsyncConfig>)
    ensures
        r is Some <==> pfsync_parses(*pc),
        r matches Some(c) ==> c.sync_interface == pc.sync_interface && c.sync_peer == pc.sync_peer && c.defer == pc.defer,
{
    match &pc.sync_peer {
        Some(p) => {
            if !ip_ok(p.as_str()) {
                return None;
            }
        },
        None => {},
    }
    Some(
        PfsyncConfig {
            sync_interface: pc.sync_interface.clone(),
            sync_peer: pc.sync_peer.clone(),
            defer: pc.defer,
        },
    )
}

/// A node with an address and a known role.
pub open spec fn node_parses(nc: ClusterNodeConfig) -> bool {
    is_ip(nc.address@) && nc.role.valid
}

/// `n` is the node that `nc` stands for.
pub open spec fn is_node_of(n: ClusterNode, nc: ClusterNodeConfig) -> bool {
    n.id@ == id_of(nc.id@) && n.name == nc.name && n.address == nc.address && n.role == nc.role.text
}

/// The node that an entry stands for; none where its address or its role is
/// none.
pub fn cluster_node_from_config(nc: &ClusterNodeConfig) -> (r: Option<ClusterNode>)
    ensures
        r is Some <==> node_parses(*nc),
        r matches Some(n) ==> is_node_of(n, *nc),
{
    if !ip_ok(nc.address.as_str()) || !nc.role.valid {
        return None;
    }
    Some(
        ClusterNode {
            id: entity_id(nc.id.as_str()),
            name: nc.name.clone(),
            address: nc.address.clone(),
            role: nc.role.text.clone(),
        },
    )
}

} // verus!
