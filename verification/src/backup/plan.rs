//! What a restore does: the rows it deletes and inserts, in order, and the
//! changes to the running system that follow once they are committed.

use vstd::prelude::*;

use crate::backup::convert::{
    carp_vip_from_config, cluster_node_from_config, node_parses, pfsync_from_config, pfsync_parses,
};
use crate::backup::dhcp::{
    keep_safe_options, keep_usable_relays, safe_options, usable_relays, DhcpOptionOverrideConfig, DhcpReservationConfig,
    DhcpSection, DhcpSubnetConfig,
};
use crate::backup::dhcp_settings::{ddns_rows, global_rows, ha_rows, save_ddns, save_global, save_ha};
use crate::backup::interfaces::{map_iface, mapped, place, placed, InterfaceMap};
use crate::backup::model::{
    AliasConfig, AuthConfig, CarpVipConfig, ClusterNodeConfig, FirewallConfig, GeoIpEntry, IpsecSaConfig, IpsecTunnel,
    NatRuleConfig, PfsyncEntry, QueueConfigEntry, RateLimitEntry, RuleConfig, SniRuleConfig, StaticRouteConfig,
    TuningEntry, WireguardPeerConfig, WireguardTunnelConfig,
};
use crate::backup::validate::{restorable, revertible, validate_restore_target, validate_revert_target};
use crate::dns_resolver::config::{config_rows, save_config, ResolverConfig};
use crate::identifiers::{entity_id, id_of, EntityId, IdView};
use crate::json::{json_of_texts, texts_to_json};
use crate::kv::{bool_text, option_view, put, put_flag, rows, KeyValue};
use crate::net::is_ip;
use crate::number::{dec_int, fmt_i64, parse_u64, parsed};
use crate::status::Status;
use crate::text::{join, join_text, same, views, wrap_all, wrapped};

verus! {

/// The tables that a restore writes.
#[derive(Clone, Copy, Debug, PartialEq, Eq, Structural)]
pub enum Table {
    WgPeers,
    WgTunnels,
    IpsecSas,
    IpsecTunnels,
    GeoipRules,
    Rules,
    NatRules,
    Aliases,
    StaticRoutes,
    AuthConfig,
    QueueConfigs,
    RateLimitRules,
    SniRules,
    Ja3Blocklist,
    CarpVips,
    PfsyncConfig,
    ClusterNodes,
    DhcpSubnets,
    DhcpReservations,
    DhcpConfig,
    DhcpDdnsConfig,
    DhcpHaConfig,
    DnsResolverConfig,
}

/// The name of a table.
pub open spec fn table_name(t: Table) -> Seq<char> {
    match t {
        Table::WgPeers => "wg_peers"@,
        Table::WgTunnels => "wg_tunnels"@,
        Table::IpsecSas => "ipsec_sas"@,
        Table::IpsecTunnels => "ipsec_tunnels"@,
        Table::GeoipRules => "geoip_rules"@,
        Table::Rules => "rules"@,
        Table::NatRules => "nat_rules"@,
        Table::Aliases => "aliases"@,
        Table::StaticRoutes => "static_routes"@,
        Table::AuthConfig => "auth_config"@,
        Table::QueueConfigs => "queue_configs"@,
        Table::RateLimitRules => "rate_limit_rules"@,
        Table::SniRules => "sni_rules"@,
        Table::Ja3Blocklist => "ja3_blocklist"@,
        Table::CarpVips => "carp_vips"@,
        Table::PfsyncConfig => "pfsync_config"@,
        Table::ClusterNodes => "cluster_nodes"@,
        Table::DhcpSubnets => "dhcp_subnets"@,
        Table::DhcpReservations => "dhcp_reservations"@,
        Table::DhcpConfig => "dhcp_config"@,
        Table::DhcpDdnsConfig => "dhcp_ddns_config"@,
        Table::DhcpHaConfig => "dhcp_ha_config"@,
        Table::DnsResolverConfig => "dns_resolver_config"@,
    }
}

/// The name of a table.
pub fn name_of_table(t: Table) -> (r: &'static str)
    ensures
        r@ == table_name(t),
{
    match t {
        Table::WgPeers => "wg_peers",
        Table::WgTunnels => "wg_tunnels",
        Table::IpsecSas => "ipsec_sas",
        Table::IpsecTunnels => "ipsec_tunnels",
        Table::GeoipRules => "geoip_rules",
        Table::Rules => "rules",
        Table::NatRules => "nat_rules",
        Table::Aliases => "aliases",
        Table::StaticRoutes => "static_routes",
        Table::AuthConfig => "auth_config",
        Table::QueueConfigs => "queue_configs",
        Table::RateLimitRules => "rate_limit_rules",
        Table::SniRules => "sni_rules",
        Table::Ja3Blocklist => "ja3_blocklist",
        Table::CarpVips => "carp_vips",
        Table::PfsyncConfig => "pfsync_config",
        Table::ClusterNodes => "cluster_nodes",
        Table::DhcpSubnets => "dhcp_subnets",
        Table::DhcpReservations => "dhcp_reservations",
        Table::DhcpConfig => "dhcp_config",
        Table::DhcpDdnsConfig => "dhcp_ddns_config",
        Table::DhcpHaConfig => "dhcp_ha_config",
        Table::DnsResolverConfig => "dns_resolver_config",
    }
}

/// One change of the database.
#[allow(inconsistent_fields)]
#[derive(Clone, Debug)]
pub enum RowOp<'a> {
    /// Delete every row of the table.
    Clear(Table),
    /// Insert or replace a key/value row.
    Put { table: Table, key: String, value: String },
    AddRule { id: EntityId, rule: &'a RuleConfig, interface: Option<String> },
    AddNat { id: EntityId, translation: &'a NatRuleConfig, interface: String },
    AddAlias { id: EntityId, alias: &'a AliasConfig },
    AddRoute { route: &'a StaticRouteConfig, interface: Option<String> },
    AddGeoIp { id: EntityId, entry: &'a GeoIpEntry },
    AddTunnel { id: EntityId, tunnel: &'a WireguardTunnelConfig, interface: String },
    /// A peer of the tunnel that was added last.
    AddPeer { id: EntityId, peer: &'a WireguardPeerConfig },
    AddSa { id: EntityId, sa: &'a IpsecSaConfig },
    AddIpsecTunnel { tunnel: &'a IpsecTunnel },
    AddQueue { id: EntityId, queue: &'a QueueConfigEntry, interface: String },
    AddRateLimit { id: EntityId, limit: &'a RateLimitEntry, interface: Option<String> },
    AddSni { id: EntityId, rule: &'a SniRuleConfig },
    /// A fingerprint, with the note that it comes from a backup.
    AddJa3 { hash: &'a String },
    AddVip { id: EntityId, vip: &'a CarpVipConfig, interface: String },
    SetPfsync { entry: &'a PfsyncEntry, interface: String },
    AddNode { id: EntityId, node: &'a ClusterNodeConfig },
    /// A subnet, with its usable relays as JSON and its safe options.
    AddSubnet { subnet: &'a DhcpSubnetConfig, relays: String, options: Vec<&'a DhcpOptionOverrideConfig> },
    AddReservation { reservation: &'a DhcpReservationConfig },
}

/// The value of a [`RowOp`].
pub enum RowStep {
    Clear(Table),
    Put(Table, Seq<char>, Seq<char>),
    AddRule(IdView, RuleConfig, Option<Seq<char>>),
    AddNat(IdView, NatRuleConfig, Seq<char>),
    AddAlias(IdView, AliasConfig),
    AddRoute(StaticRouteConfig, Option<Seq<char>>),
    AddGeoIp(IdView, GeoIpEntry),
    AddTunnel(IdView, WireguardTunnelConfig, Seq<char>),
    AddPeer(IdView, WireguardPeerConfig),
    AddSa(IdView, IpsecSaConfig),
    AddIpsecTunnel(IpsecTunnel),
    AddQueue(IdView, QueueConfigEntry, Seq<char>),
    AddRateLimit(IdView, RateLimitEntry, Option<Seq<char>>),
    AddSni(IdView, SniRuleConfig),
    AddJa3(Seq<char>),
    AddVip(IdView, CarpVipConfig, Seq<char>),
    SetPfsync(PfsyncEntry, Seq<char>),
    AddNode(IdView, ClusterNodeConfig),
    AddSubnet(DhcpSubnetConfig, Seq<char>, Seq<DhcpOptionOverrideConfig>),
    AddReservation(DhcpReservationConfig),
}

impl View for RowOp<'_> {
    type V = RowStep;

    open spec fn view(&self) -> RowStep {
        match *self {
            RowOp::Clear(t) => RowStep::Clear(t),
            RowOp::Put { table, key, value } => RowStep::Put(table, key@, value@),
            RowOp::AddRule { id, rule, interface } => RowStep::AddRule(id@, *rule, option_view(interface)),
            RowOp::AddNat { id, translation, interface } => RowStep::AddNat(id@, *translation, interface@),
            RowOp::AddAlias { id, alias } => RowStep::AddAlias(id@, *alias),
            RowOp::AddRoute { route, interface } => RowStep::AddRoute(*route, option_view(interface)),
            RowOp::AddGeoIp { id, entry } => RowStep::AddGeoIp(id@, *entry),
            RowOp::AddTunnel { id, tunnel, interface } => RowStep::AddTunnel(id@, *tunnel, interface@),
            RowOp::AddPeer { id, peer } => RowStep::AddPeer(id@, *peer),
            RowOp::AddSa { id, sa } => RowStep::AddSa(id@, *sa),
            RowOp::AddIpsecTunnel { tunnel } => RowStep::AddIpsecTunnel(*tunnel),
            RowOp::AddQueue { id, queue, interface } => RowStep::AddQueue(id@, *queue, interface@),
            RowOp::AddRateLimit { id, limit, interface } => RowStep::AddRateLimit(id@, *limit, option_view(interface)),
            RowOp::AddSni { id, rule } => RowStep::AddSni(id@, *rule),
            RowOp::AddJa3 { hash } => RowStep::AddJa3(hash@),
            RowOp::AddVip { id, vip, interface } => RowStep::AddVip(id@, *vip, interface@),
            RowOp::SetPfsync { entry, interface } => RowStep::SetPfsync(*entry, interface@),
            RowOp::AddNode { id, node } => RowStep::AddNode(id@, *node),
            RowOp::AddSubnet { subnet, relays, options } => RowStep::AddSubnet(
                *subnet,
                relays@,
                Seq::new(options@.len(), |i: int| *options@[i]),
            ),
            RowOp::AddReservation { reservation } => RowStep::AddReservation(*reservation),
        }
    }
}

/// The values of a list of changes.
pub open spec fn row_values(v: Seq<RowOp<'_>>) -> Seq<RowStep> {
    Seq::new(v.len(), |i: int| v[i]@)
}

fn push_row<'a>(out: &mut Vec<RowOp<'a>>, op: RowOp<'a>)
    ensures
        row_values(final(out)@) == row_values(old(out)@).push(op@),
{
    let ghost before = row_values(out@);
    let ghost o = op@;
    out.push(op);
    assert(row_values(out@) =~= before.push(o));
}

/// The deletions of the tables `t`, in order.
pub open spec fn clears(t: Seq<Table>) -> Seq<RowStep> {
    Seq::new(t.len(), |i: int| RowStep::Clear(t[i]))
}

fn push_clears<'a>(out: &mut Vec<RowOp<'a>>, t: &Vec<Table>)
    ensures
        row_values(final(out)@) == row_values(old(out)@) + clears(t@),
{
    let ghost before = row_values(out@);
    let mut i: usize = 0;
    while i < t.len()
        invariant
            i <= t@.len(),
            row_values(out@) =~= before + clears(t@.take(i as int)),
        decreases t.len() - i,
    {
        push_row(out, RowOp::Clear(t[i]));
        i = i + 1;
    }
    assert(t@.take(t@.len() as int) =~= t@);
}

/// The key/value rows `t` of a table, in order.
pub open spec fn puts(table: Table, t: Seq<(Seq<char>, Seq<char>)>) -> Seq<RowStep> {
    Seq::new(t.len(), |i: int| RowStep::Put(table, t[i].0, t[i].1))
}

fn push_puts<'a>(out: &mut Vec<RowOp<'a>>, table: Table, t: &Vec<KeyValue>)
    ensures
        row_values(final(out)@) == row_values(old(out)@) + puts(table, rows(t@)),
{
    let ghost before = row_values(out@);
    let mut i: usize = 0;
    while i < t.len()
        invariant
            i <= t@.len(),
            row_values(out@) =~= before + puts(table, rows(t@)).take(i as int),
        decreases t.len() - i,
    {
        push_row(out, RowOp::Put { table, key: t[i].key.clone(), value: t[i].value.clone() });
        i = i + 1;
    }
    assert(puts(table, rows(t@)).take(t@.len() as int) =~= puts(table, rows(t@)));
}

/// The rules that are kept, on the interfaces that they are mapped to.
pub open spec fn rule_steps(v: Seq<RuleConfig>, m: Map<Seq<char>, Option<String>>) -> Seq<RowStep>
    decreases v.len(),
{
    if v.len() == 0 {
        Seq::<RowStep>::empty()
    } else {
        let init = rule_steps(v.drop_last(), m);
        match placed(v.last().interface, m) {
            Some(i) => init.push(RowStep::AddRule(id_of(v.last().id@), v.last(), i)),
            None => init,
        }
    }
}

fn push_rule<'a>(out: &mut Vec<RowOp<'a>>, v: &'a Vec<RuleConfig>, map: &InterfaceMap)
    ensures
        row_values(final(out)@) == row_values(old(out)@) + rule_steps(v@, map@),
{
    let ghost before = row_values(out@);
    let mut i: usize = 0;
    assert(before + rule_steps(v@.take(0), map@) =~= before);
    while i < v.len()
        invariant
            i <= v@.len(),
            row_values(out@) == before + rule_steps(v@.take(i as int), map@),
        decreases v.len() - i,
    {
        assert(v@.take(i + 1).drop_last() =~= v@.take(i as int));
        match place(&v[i].interface, map) {
            Some(interface) => push_row(out, RowOp::AddRule { id: entity_id(v[i].id.as_str()), rule: &v[i], interface }),
            None => {},
        }
        assert(row_values(out@) =~= before + rule_steps(v@.take(i + 1), map@));
        i = i + 1;
    }
    assert(v@.take(v@.len() as int) =~= v@);
}

/// The NAT rules that are kept.
pub open spec fn nat_steps(v: Seq<NatRuleConfig>, m: Map<Seq<char>, Option<String>>) -> Seq<RowStep>
    decreases v.len(),
{
    if v.len() == 0 {
        Seq::<RowStep>::empty()
    } else {
        let init = nat_steps(v.drop_last(), m);
        match mapped(v.last().interface@, m) {
            Some(i) => init.push(RowStep::AddNat(id_of(v.last().id@), v.last(), i)),
            None => init,
        }
    }
}

fn push_nat<'a>(out: &mut Vec<RowOp<'a>>, v: &'a Vec<NatRuleConfig>, map: &InterfaceMap)
    ensures
        row_values(final(out)@) == row_values(old(out)@) + nat_steps(v@, map@),
{
    let ghost before = row_values(out@);
    let mut i: usize = 0;
    assert(before + nat_steps(v@.take(0), map@) =~= before);
    while i < v.len()
        invariant
            i <= v@.len(),
            row_values(out@) == before + nat_steps(v@.take(i as int), map@),
        decreases v.len() - i,
    {
        assert(v@.take(i + 1).drop_last() =~= v@.take(i as int));
        match map_iface(v[i].interface.as_str(), map) {
            Some(interface) => push_row(out, RowOp::AddNat { id: entity_id(v[i].id.as_str()), translation: &v[i], interface }),
            None => {},
        }
        assert(row_values(out@) =~= before + nat_steps(v@.take(i + 1), map@));
        i = i + 1;
    }
    assert(v@.take(v@.len() as int) =~= v@);
}

/// The aliases.
pub open spec fn alias_steps(v: Seq<AliasConfig>) -> Seq<RowStep>
    decreases v.len(),
{
    if v.len() == 0 {
        Seq::<RowStep>::empty()
    } else {
        let init = alias_steps(v.drop_last());
        init.push(RowStep::AddAlias(id_of(v.last().id@), v.last()))
    }
}

fn push_alias<'a>(out: &mut Vec<RowOp<'a>>, v: &'a Vec<AliasConfig>)
    ensures
        row_values(final(out)@) == row_values(old(out)@) + alias_steps(v@),
{
    let ghost before = row_values(out@);
    let mut i: usize = 0;
    assert(before + alias_steps(v@.take(0)) =~= before);
    while i < v.len()
        invariant
            i <= v@.len(),
            row_values(out@) == before + alias_steps(v@.take(i as int)),
        decreases v.len() - i,
    {
        assert(v@.take(i + 1).drop_last() =~= v@.take(i as int));
        push_row(out, RowOp::AddAlias { id: entity_id(v[i].id.as_str()), alias: &v[i] });
        assert(row_values(out@) =~= before + alias_steps(v@.take(i + 1)));
        i = i + 1;
    }
    assert(v@.take(v@.len() as int) =~= v@);
}

/// The static routes that are kept.
pub open spec fn route_steps(v: Seq<StaticRouteConfig>, m: Map<Seq<char>, Option<String>>) -> Seq<RowStep>
    decreases v.len(),
{
    if v.len() == 0 {
        Seq::<RowStep>::empty()
    } else {
        let init = route_steps(v.drop_last(), m);
        match placed(v.last().interface, m) {
            Some(i) => init.push(RowStep::AddRoute(v.last(), i)),
            None => init,
        }
    }
}

fn push_route<'a>(out: &mut Vec<RowOp<'a>>, v: &'a Vec<StaticRouteConfig>, map: &InterfaceMap)
    ensures
        row_values(final(out)@) == row_values(old(out)@) + route_steps(v@, map@),
{
    let ghost before = row_values(out@);
    let mut i: usize = 0;
    assert(before + route_steps(v@.take(0), map@) =~= before);
    while i < v.len()
        invariant
            i <= v@.len(),
            row_values(out@) == before + route_steps(v@.take(i as int), map@),
        decreases v.len() - i,
    {
        assert(v@.take(i + 1).drop_last() =~= v@.take(i as int));
        match place(&v[i].interface, map) {
            Some(interface) => push_row(out, RowOp::AddRoute { route: &v[i], interface }),
            None => {},
        }
        assert(row_values(out@) =~= before + route_steps(v@.take(i + 1), map@));
        i = i + 1;
    }
    assert(v@.take(v@.len() as int) =~= v@);
}

/// The Geo-IP rules.
pub open spec fn geoip_steps(v: Seq<GeoIpEntry>) -> Seq<RowStep>
    decreases v.len(),
{
    if v.len() == 0 {
        Seq::<RowStep>::empty()
    } else {
        let init = geoip_steps(v.drop_last());
        init.push(RowStep::AddGeoIp(id_of(v.last().id@), v.last()))
    }
}

fn push_geoip<'a>(out: &mut Vec<RowOp<'a>>, v: &'a Vec<GeoIpEntry>)
    ensures
        row_values(final(out)@) == row_values(old(out)@) + geoip_steps(v@),
{
    let ghost before = row_values(out@);
    let mut i: usize = 0;
    assert(before + geoip_steps(v@.take(0)) =~= before);
    while i < v.len()
        invariant
            i <= v@.len(),
            row_values(out@) == before + geoip_steps(v@.take(i as int)),
        decreases v.len() - i,
    {
        assert(v@.take(i + 1).drop_last() =~= v@.take(i as int));
        push_row(out, RowOp::AddGeoIp { id: entity_id(v[i].id.as_str()), entry: &v[i] });
        assert(row_values(out@) =~= before + geoip_steps(v@.take(i + 1)));
        i = i + 1;
    }
    assert(v@.take(v@.len() as int) =~= v@);
}

/// The peers of one tunnel.
pub open spec fn peer_steps(v: Seq<WireguardPeerConfig>) -> Seq<RowStep>
    decreases v.len(),
{
    if v.len() == 0 {
        Seq::<RowStep>::empty()
    } else {
        let init = peer_steps(v.drop_last());
        init.push(RowStep::AddPeer(id_of(v.last().id@), v.last()))
    }
}

fn push_peer<'a>(out: &mut Vec<RowOp<'a>>, v: &'a Vec<WireguardPeerConfig>)
    ensures
        row_values(final(out)@) == row_values(old(out)@) + peer_steps(v@),
{
    let ghost before = row_values(out@);
    let mut i: usize = 0;
    assert(before + peer_steps(v@.take(0)) =~= before);
    while i < v.len()
        invariant
            i <= v@.len(),
            row_values(out@) == before + peer_steps(v@.take(i as int)),
        decreases v.len() - i,
    {
        assert(v@.take(i + 1).drop_last() =~= v@.take(i as int));
        push_row(out, RowOp::AddPeer { id: entity_id(v[i].id.as_str()), peer: &v[i] });
        assert(row_values(out@) =~= before + peer_steps(v@.take(i + 1)));
        i = i + 1;
    }
    assert(v@.take(v@.len() as int) =~= v@);
}

/// The tunnels that are kept, each with its peers.
pub open spec fn tunnel_steps(v: Seq<WireguardTunnelConfig>, m: Map<Seq<char>, Option<String>>) -> Seq<RowStep>
    decreases v.len(),
{
    if v.len() == 0 {
        Seq::<RowStep>::empty()
    } else {
        let init = tunnel_steps(v.drop_last(), m);
        match mapped(v.last().interface@, m) {
            Some(i) => init.push(RowStep::AddTunnel(id_of(v.last().id@), v.last(), i)) + peer_steps(v.last().peers@),
            None => init,
        }
    }
}

fn push_tunnel<'a>(out: &mut Vec<RowOp<'a>>, v: &'a Vec<WireguardTunnelConfig>, map: &InterfaceMap)
    ensures
        row_values(final(out)@) == row_values(old(out)@) + tunnel_steps(v@, map@),
{
    let ghost before = row_values(out@);
    let mut i: usize = 0;
    assert(before + tunnel_steps(v@.take(0), map@) =~= before);
    while i < v.len()
        invariant
            i <= v@.len(),
            row_values(out@) == before + tunnel_steps(v@.take(i as int), map@),
        decreases v.len() - i,
    {
        assert(v@.take(i + 1).drop_last() =~= v@.take(i as int));
        match map_iface(v[i].interface.as_str(), map) {
            Some(interface) => {
                push_row(out, RowOp::AddTunnel { id: entity_id(v[i].id.as_str()), tunnel: &v[i], interface });
                push_peer(out, &v[i].peers);
            },
            None => {},
        }
        assert(row_values(out@) =~= before + tunnel_steps(v@.take(i + 1), map@));
        i = i + 1;
    }
    assert(v@.take(v@.len() as int) =~= v@);
}

/// The IPsec associations.
pub open spec fn sa_steps(v: Seq<IpsecSaConfig>) -> Seq<RowStep>
    decreases v.len(),
{
    if v.len() == 0 {
        Seq::<RowStep>::empty()
    } else {
        let init = sa_steps(v.drop_last());
        init.push(RowStep::AddSa(id_of(v.last().id@), v.last()))
    }
}

fn push_sa<'a>(out: &mut Vec<RowOp<'a>>, v: &'a Vec<IpsecSaConfig>)
    ensures
        row_values(final(out)@) == row_values(old(out)@) + sa_steps(v@),
{
    let ghost before = row_values(out@);
    let mut i: usize = 0;
    assert(before + sa_steps(v@.take(0)) =~= before);
    while i < v.len()
        invariant
            i <= v@.len(),
            row_values(out@) == before + sa_steps(v@.take(i as int)),
        decreases v.len() - i,
    {
        assert(v@.take(i + 1).drop_last() =~= v@.take(i as int));
        push_row(out, RowOp::AddSa { id: entity_id(v[i].id.as_str()), sa: &v[i] });
        assert(row_values(out@) =~= before + sa_steps(v@.take(i + 1)));
        i = i + 1;
    }
    assert(v@.take(v@.len() as int) =~= v@);
}

/// The IPsec tunnels.
pub open spec fn ipsec_tunnel_steps(v: Seq<IpsecTunnel>) -> Seq<RowStep>
    decreases v.len(),
{
    if v.len() == 0 {
        Seq::<RowStep>::empty()
    } else {
        let init = ipsec_tunnel_steps(v.drop_last());
        init.push(RowStep::AddIpsecTunnel(v.last()))
    }
}

fn push_ipsec_tunnel<'a>(out: &mut Vec<RowOp<'a>>, v: &'a Vec<IpsecTunnel>)
    ensures
        row_values(final(out)@) == row_values(old(out)@) + ipsec_tunnel_steps(v@),
{
    let ghost before = row_values(out@);
    let mut i: usize = 0;
    assert(before + ipsec_tunnel_steps(v@.take(0)) =~= before);
    while i < v.len()
        invariant
            i <= v@.len(),
            row_values(out@) == before + ipsec_tunnel_steps(v@.take(i as int)),
        decreases v.len() - i,
    {
        assert(v@.take(i + 1).drop_last() =~= v@.take(i as int));
        push_row(out, RowOp::AddIpsecTunnel { tunnel: &v[i] });
        assert(row_values(out@) =~= before + ipsec_tunnel_steps(v@.take(i + 1)));
        i = i + 1;
    }
    assert(v@.take(v@.len() as int) =~= v@);
}

/// The queues that are kept.
pub open spec fn queue_steps(v: Seq<QueueConfigEntry>, m: Map<Seq<char>, Option<String>>) -> Seq<RowStep>
    decreases v.len(),
{
    if v.len() == 0 {
        Seq::<RowStep>::empty()
    } else {
        let init = queue_steps(v.drop_last(), m);
        match mapped(v.last().interface@, m) {
            Some(i) => init.push(RowStep::AddQueue(id_of(v.last().id@), v.last(), i)),
            None => init,
        }
    }
}

fn push_queue<'a>(out: &mut Vec<RowOp<'a>>, v: &'a Vec<QueueConfigEntry>, map: &InterfaceMap)
    ensures
        row_values(final(out)@) == row_values(old(out)@) + queue_steps(v@, map@),
{
    let ghost before = row_values(out@);
    let mut i: usize = 0;
    assert(before + queue_steps(v@.take(0), map@) =~= before);
    while i < v.len()
        invariant
            i <= v@.len(),
            row_values(out@) == before + queue_steps(v@.take(i as int), map@),
        decreases v.len() - i,
    {
        assert(v@.take(i + 1).drop_last() =~= v@.take(i as int));
        match map_iface(v[i].interface.as_str(), map) {
            Some(interface) => push_row(out, RowOp::AddQueue { id: entity_id(v[i].id.as_str()), queue: &v[i], interface }),
            None => {},
        }
        assert(row_values(out@) =~= before + queue_steps(v@.take(i + 1), map@));
        i = i + 1;
    }
    assert(v@.take(v@.len() as int) =~= v@);
}

/// The rate limits that are kept.
pub open spec fn limit_steps(v: Seq<RateLimitEntry>, m: Map<Seq<char>, Option<String>>) -> Seq<RowStep>
    decreases v.len(),
{
    if v.len() == 0 {
        Seq::<RowStep>::empty()
    } else {
        let init = limit_steps(v.drop_last(), m);
        match placed(v.last().interface, m) {
            Some(i) => init.push(RowStep::AddRateLimit(id_of(v.last().id@), v.last(), i)),
            None => init,
        }
    }
}

fn push_limit<'a>(out: &mut Vec<RowOp<'a>>, v: &'a Vec<RateLimitEntry>, map: &InterfaceMap)
    ensures
        row_values(final(out)@) == row_values(old(out)@) + limit_steps(v@, map@),
{
    let ghost before = row_values(out@);
    let mut i: usize = 0;
    assert(before + limit_steps(v@.take(0), map@) =~= before);
    while i < v.len()
        invariant
            i <= v@.len(),
            row_values(out@) == before + limit_steps(v@.take(i as int), map@),
        decreases v.len() - i,
    {
        assert(v@.take(i + 1).drop_last() =~= v@.take(i as int));
        match place(&v[i].interface, map) {
            Some(interface) => push_row(out, RowOp::AddRateLimit { id: entity_id(v[i].id.as_str()), limit: &v[i], interface }),
            None => {},
        }
        assert(row_values(out@) =~= before + limit_steps(v@.take(i + 1), map@));
        i = i + 1;
    }
    assert(v@.take(v@.len() as int) =~= v@);
}

/// The rules on server names.
pub open spec fn sni_steps(v: Seq<SniRuleConfig>) -> Seq<RowStep>
    decreases v.len(),
{
    if v.len() == 0 {
        Seq::<RowStep>::empty()
    } else {
        let init = sni_steps(v.drop_last());
        init.push(RowStep::AddSni(id_of(v.last().id@), v.last()))
    }
}

fn push_sni<'a>(out: &mut Vec<RowOp<'a>>, v: &'a Vec<SniRuleConfig>)
    ensures
        row_values(final(out)@) == row_values(old(out)@) + sni_steps(v@),
{
    let ghost before = row_values(out@);
    let mut i: usize = 0;
    assert(before + sni_steps(v@.take(0)) =~= before);
    while i < v.len()
        invariant
            i <= v@.len(),
            row_values(out@) == before + sni_steps(v@.take(i as int)),
        decreases v.len() - i,
    {
        assert(v@.take(i + 1).drop_last() =~= v@.take(i as int));
        push_row(out, RowOp::AddSni { id: entity_id(v[i].id.as_str()), rule: &v[i] });
        assert(row_values(out@) =~= before + sni_steps(v@.take(i + 1)));
        i = i + 1;
    }
    assert(v@.take(v@.len() as int) =~= v@);
}

/// The blocked fingerprints.
pub open spec fn ja3_steps(v: Seq<String>) -> Seq<RowStep>
    decreases v.len(),
{
    if v.len() == 0 {
        Seq::<RowStep>::empty()
    } else {
        let init = ja3_steps(v.drop_last());
        init.push(RowStep::AddJa3(v.last()@))
    }
}

fn push_ja3<'a>(out: &mut Vec<RowOp<'a>>, v: &'a Vec<String>)
    ensures
        row_values(final(out)@) == row_values(old(out)@) + ja3_steps(v@),
{
    let ghost before = row_values(out@);
    let mut i: usize = 0;
    assert(before + ja3_steps(v@.take(0)) =~= before);
    while i < v.len()
        invariant
            i <= v@.len(),
            row_values(out@) == before + ja3_steps(v@.take(i as int)),
        decreases v.len() - i,
    {
        assert(v@.take(i + 1).drop_last() =~= v@.take(i as int));
        push_row(out, RowOp::AddJa3 { hash: &v[i] });
        assert(row_values(out@) =~= before + ja3_steps(v@.take(i + 1)));
        i = i + 1;
    }
    assert(v@.take(v@.len() as int) =~= v@);
}

/// The shared addresses that are kept; an entry whose address is none is skipped.
pub open spec fn vip_steps(v: Seq<CarpVipConfig>, m: Map<Seq<char>, Option<String>>) -> Seq<RowStep>
    decreases v.len(),
{
    if v.len() == 0 {
        Seq::<RowStep>::empty()
    } else {
        let init = vip_steps(v.drop_last(), m);
        match mapped(v.last().interface@, m) {
            Some(i) => if is_ip(v.last().virtual_ip@) {
                init.push(RowStep::AddVip(id_of(v.last().id@), v.last(), i))
            } else {
                init
            },
            None => init,
        }
    }
}

fn push_vip<'a>(out: &mut Vec<RowOp<'a>>, v: &'a Vec<CarpVipConfig>, map: &InterfaceMap)
    ensures
        row_values(final(out)@) == row_values(old(out)@) + vip_steps(v@, map@),
{
    let ghost before = row_values(out@);
    let mut i: usize = 0;
    assert(before + vip_steps(v@.take(0), map@) =~= before);
    while i < v.len()
        invariant
            i <= v@.len(),
            row_values(out@) == before + vip_steps(v@.take(i as int), map@),
        decreases v.len() - i,
    {
        assert(v@.take(i + 1).drop_last() =~= v@.take(i as int));
        match map_iface(v[i].interface.as_str(), map) {
            Some(interface) => {
                if carp_vip_from_config(&v[i]).is_some() {
                    push_row(out, RowOp::AddVip { id: entity_id(v[i].id.as_str()), vip: &v[i], interface });
                }
            },
            None => {},
        }
        assert(row_values(out@) =~= before + vip_steps(v@.take(i + 1), map@));
        i = i + 1;
    }
    assert(v@.take(v@.len() as int) =~= v@);
}

/// The cluster nodes; an entry without an address or a role is skipped.
pub open spec fn node_steps(v: Seq<ClusterNodeConfig>) -> Seq<RowStep>
    decreases v.len(),
{
    if v.len() == 0 {
        Seq::<RowStep>::empty()
    } else {
        let init = node_steps(v.drop_last());
        if node_parses(v.last()) {
            init.push(RowStep::AddNode(id_of(v.last().id@), v.last()))
        } else {
            init
        }
    }
}

fn push_node<'a>(out: &mut Vec<RowOp<'a>>, v: &'a Vec<ClusterNodeConfig>)
    ensures
        row_values(final(out)@) == row_values(old(out)@) + node_steps(v@),
{
    let ghost before = row_values(out@);
    let mut i: usize = 0;
    assert(before + node_steps(v@.take(0)) =~= before);
    while i < v.len()
        invariant
            i <= v@.len(),
            row_values(out@) == before + node_steps(v@.take(i as int)),
        decreases v.len() - i,
    {
        assert(v@.take(i + 1).drop_last() =~= v@.take(i as int));
        if cluster_node_from_config(&v[i]).is_some() {
            push_row(out, RowOp::AddNode { id: entity_id(v[i].id.as_str()), node: &v[i] });
        }
        assert(row_values(out@) =~= before + node_steps(v@.take(i + 1)));
        i = i + 1;
    }
    assert(v@.take(v@.len() as int) =~= v@);
}

/// The reservations.
pub open spec fn reservation_steps(v: Seq<DhcpReservationConfig>) -> Seq<RowStep>
    decreases v.len(),
{
    if v.len() == 0 {
        Seq::<RowStep>::empty()
    } else {
        let init = reservation_steps(v.drop_last());
        init.push(RowStep::AddReservation(v.last()))
    }
}

fn push_reservation<'a>(out: &mut Vec<RowOp<'a>>, v: &'a Vec<DhcpReservationConfig>)
    ensures
        row_values(final(out)@) == row_values(old(out)@) + reservation_steps(v@),
{
    let ghost before = row_values(out@);
    let mut i: usize = 0;
    assert(before + reservation_steps(v@.take(0)) =~= before);
    while i < v.len()
        invariant
            i <= v@.len(),
            row_values(out@) == before + reservation_steps(v@.take(i as int)),
        decreases v.len() - i,
    {
        assert(v@.take(i + 1).drop_last() =~= v@.take(i as int));
        push_row(out, RowOp::AddReservation { reservation: &v[i] });
        assert(row_values(out@) =~= before + reservation_steps(v@.take(i + 1)));
        i = i + 1;
    }
    assert(v@.take(v@.len() as int) =~= v@);
}

/// The row of one subnet: relays that are no usable addresses, and options that
/// the server would refuse, are left out.
pub open spec fn subnet_step(s: DhcpSubnetConfig) -> RowStep {
    RowStep::AddSubnet(s, json_of_texts(usable_relays(views(s.trusted_relays@))), safe_options(s.options@))
}

fn subnet_op(s: &DhcpSubnetConfig) -> (op: RowOp<'_>)
    ensures
        op@ == subnet_step(*s),
{
    let relays = texts_to_json(&keep_usable_relays(&s.trusted_relays));
    let options = keep_safe_options(&s.options);
    assert(Seq::new(options@.len(), |i: int| *options@[i]) =~= safe_options(s.options@));
    RowOp::AddSubnet { subnet: s, relays, options }
}

/// The subnets.
pub open spec fn subnet_steps(v: Seq<DhcpSubnetConfig>) -> Seq<RowStep>
    decreases v.len(),
{
    if v.len() == 0 {
        Seq::<RowStep>::empty()
    } else {
        let init = subnet_steps(v.drop_last());
        init.push(subnet_step(v.last()))
    }
}

fn push_subnet<'a>(out: &mut Vec<RowOp<'a>>, v: &'a Vec<DhcpSubnetConfig>)
    ensures
        row_values(final(out)@) == row_values(old(out)@) + subnet_steps(v@),
{
    let ghost before = row_values(out@);
    let mut i: usize = 0;
    assert(before + subnet_steps(v@.take(0)) =~= before);
    while i < v.len()
        invariant
            i <= v@.len(),
            row_values(out@) == before + subnet_steps(v@.take(i as int)),
        decreases v.len() - i,
    {
        assert(v@.take(i + 1).drop_last() =~= v@.take(i as int));
        push_row(out, subnet_op(&v[i]));
        assert(row_values(out@) =~= before + subnet_steps(v@.take(i + 1)));
        i = i + 1;
    }
    assert(v@.take(v@.len() as int) =~= v@);
}

/// The state synchronisation, where there is one, it is kept, and its peer is
/// an address.
pub open spec fn pfsync_steps(p: Option<PfsyncEntry>, m: Map<Seq<char>, Option<String>>) -> Seq<RowStep> {
    match p {
        Some(e) => match mapped(e.sync_interface@, m) {
            Some(i) => if pfsync_parses(e) {
                seq![RowStep::SetPfsync(e, i)]
            } else {
                Seq::<RowStep>::empty()
            },
            None => Seq::<RowStep>::empty(),
        },
        None => Seq::<RowStep>::empty(),
    }
}

fn push_pfsync<'a>(out: &mut Vec<RowOp<'a>>, p: &'a Option<PfsyncEntry>, map: &InterfaceMap)
    ensures
        row_values(final(out)@) == row_values(old(out)@) + pfsync_steps(*p, map@),
{
    let ghost before = row_values(out@);
    match p {
        Some(e) => match map_iface(e.sync_interface.as_str(), map) {
            Some(interface) => {
                if pfsync_from_config(e).is_some() {
                    push_row(out, RowOp::SetPfsync { entry: e, interface });
                }
            },
            None => {},
        },
        None => {},
    }
    assert(row_values(out@) =~= before + pfsync_steps(*p, map@));
}

/// The rows of the authentication settings that a backup carries.
pub open spec fn auth_rows(a: AuthConfig) -> Seq<(Seq<char>, Seq<char>)> {
    Seq::<(Seq<char>, Seq<char>)>::empty().push(
        ("access_token_expiry_mins"@, dec_int(a.access_token_expiry_mins as int)),
    ).push(("refresh_token_expiry_days"@, dec_int(a.refresh_token_expiry_days as int))).push(
        ("require_totp"@, bool_text(a.require_totp)),
    )
}

fn save_auth(a: &AuthConfig) -> (t: Vec<KeyValue>)
    ensures
        rows(t@) == auth_rows(*a),
{
    let mins = fmt_i64(a.access_token_expiry_mins);
    let days = fmt_i64(a.refresh_token_expiry_days);
    let mut t: Vec<KeyValue> = Vec::new();
    assert(rows(t@) =~= Seq::<(Seq<char>, Seq<char>)>::empty());
    put(&mut t, "access_token_expiry_mins", mins.as_str());
    put(&mut t, "refresh_token_expiry_days", days.as_str());
    put_flag(&mut t, "require_totp", a.require_totp);
    t
}

/// The tables that are emptied before the first sections are put back.
pub open spec fn base_tables() -> Seq<Table> {
    seq![
        Table::WgPeers,
        Table::WgTunnels,
        Table::IpsecSas,
        Table::IpsecTunnels,
        Table::GeoipRules,
        Table::Rules,
        Table::NatRules,
        Table::Aliases,
        Table::StaticRoutes,
    ]
}

/// The rows of the DHCP section: its tables are emptied, then filled.
pub open spec fn dhcp_steps(d: DhcpSection) -> Seq<RowStep> {
    clears(
        seq![
            Table::DhcpSubnets,
            Table::DhcpReservations,
            Table::DhcpConfig,
            Table::DhcpDdnsConfig,
            Table::DhcpHaConfig,
        ],
    ) + puts(Table::DhcpConfig, global_rows(d.global@)) + subnet_steps(d.subnets@) + reservation_steps(d.reservations@)
        + puts(Table::DhcpDdnsConfig, ddns_rows(d.ddns@)) + puts(Table::DhcpHaConfig, ha_rows(d.dhcp_ha@))
}

/// Adds the changes that put the DHCP section back.
fn apply_dhcp_section<'a>(out: &mut Vec<RowOp<'a>>, d: &'a DhcpSection)
    ensures
        row_values(final(out)@) == row_values(old(out)@) + dhcp_steps(*d),
{
    let ghost before = row_values(out@);
    let tables = vec![
        Table::DhcpSubnets,
        Table::DhcpReservations,
        Table::DhcpConfig,
        Table::DhcpDdnsConfig,
        Table::DhcpHaConfig,
    ];
    push_clears(out, &tables);
    push_puts(out, Table::DhcpConfig, &save_global(&d.global));
    push_subnet(out, &d.subnets);
    push_reservation(out, &d.reservations);
    push_puts(out, Table::DhcpDdnsConfig, &save_ddns(&d.ddns));
    push_puts(out, Table::DhcpHaConfig, &save_ha(&d.dhcp_ha));
    assert(row_values(out@) =~= before + dhcp_steps(*d));
}

/// The rows of the resolver settings. A backup without them leaves the
/// settings of this machine alone.
pub open spec fn resolver_steps(r: Option<ResolverConfig>) -> Seq<RowStep> {
    match r {
        Some(c) => puts(Table::DnsResolverConfig, config_rows(c@)),
        None => Seq::<RowStep>::empty(),
    }
}

/// The rows of rules, translations, aliases, routes and tunnels.
pub open spec fn policy_steps(c: FirewallConfig, m: Map<Seq<char>, Option<String>>) -> Seq<RowStep> {
    clears(base_tables()) + rule_steps(c.rules@, m) + nat_steps(c.nat@, m) + alias_steps(c.aliases@) + route_steps(
        c.static_routes@,
        m,
    ) + geoip_steps(c.geoip@) + tunnel_steps(c.vpn.wireguard@, m) + sa_steps(c.vpn.ipsec@) + ipsec_tunnel_steps(
        c.vpn.ipsec_tunnels@,
    )
}

/// The rows of authentication, shaping, TLS and the cluster.
pub open spec fn service_steps(c: FirewallConfig, m: Map<Seq<char>, Option<String>>) -> Seq<RowStep> {
    puts(Table::AuthConfig, auth_rows(c.auth)) + clears(seq![Table::QueueConfigs, Table::RateLimitRules]) + queue_steps(
        c.queues@,
        m,
    ) + limit_steps(c.rate_limits@, m) + clears(seq![Table::SniRules, Table::Ja3Blocklist]) + sni_steps(c.tls.sni_rules@)
        + ja3_steps(c.tls.blocked_ja3@) + clears(seq![Table::CarpVips, Table::PfsyncConfig, Table::ClusterNodes])
        + vip_steps(c.ha.carp_vips@, m) + pfsync_steps(c.ha.pfsync, m) + node_steps(c.ha.nodes@)
}

/// All changes of the database, in order: they are made in one transaction.
pub open spec fn all_row_steps(c: FirewallConfig, m: Map<Seq<char>, Option<String>>) -> Seq<RowStep> {
    policy_steps(c, m) + service_steps(c, m) + dhcp_steps(c.dhcp) + resolver_steps(c.dns_resolver)
}

fn push_policy<'a>(out: &mut Vec<RowOp<'a>>, c: &'a FirewallConfig, map: &InterfaceMap)
    ensures
        row_values(final(out)@) == row_values(old(out)@) + policy_steps(*c, map@),
{
    let ghost before = row_values(out@);
    let tables = vec![
        Table::WgPeers,
        Table::WgTunnels,
        Table::IpsecSas,
        Table::IpsecTunnels,
        Table::GeoipRules,
        Table::Rules,
        Table::NatRules,
        Table::Aliases,
        Table::StaticRoutes,
    ];
    assert(tables@ =~= base_tables());
    push_clears(out, &tables);
    push_rule(out, &c.rules, map);
    push_nat(out, &c.nat, map);
    push_alias(out, &c.aliases);
    push_route(out, &c.static_routes, map);
    push_geoip(out, &c.geoip);
    push_tunnel(out, &c.vpn.wireguard, map);
    push_sa(out, &c.vpn.ipsec);
    push_ipsec_tunnel(out, &c.vpn.ipsec_tunnels);
    assert(row_values(out@) =~= before + policy_steps(*c, map@));
}

fn push_service<'a>(out: &mut Vec<RowOp<'a>>, c: &'a FirewallConfig, map: &InterfaceMap)
    ensures
        row_values(final(out)@) == row_values(old(out)@) + service_steps(*c, map@),
{
    let ghost before = row_values(out@);
    push_puts(out, Table::AuthConfig, &save_auth(&c.auth));
    let shaping = vec![Table::QueueConfigs, Table::RateLimitRules];
    push_clears(out, &shaping);
    push_queue(out, &c.queues, map);
    push_limit(out, &c.rate_limits, map);
    let tls = vec![Table::SniRules, Table::Ja3Blocklist];
    push_clears(out, &tls);
    push_sni(out, &c.tls.sni_rules);
    push_ja3(out, &c.tls.blocked_ja3);
    let ha = vec![Table::CarpVips, Table::PfsyncConfig, Table::ClusterNodes];
    push_clears(out, &ha);
    push_vip(out, &c.ha.carp_vips, map);
    push_pfsync(out, &c.ha.pfsync, map);
    push_node(out, &c.ha.nodes);
    assert(row_values(out@) =~= before + service_steps(*c, map@));
}

/// One change of the running system.
#[derive(Clone, Debug)]
pub enum LiveOp<'a> {
    /// Add an enabled route to the kernel. It is added again when the machine
    /// boots.
    ApplyRoute { route: &'a StaticRouteConfig, interface: Option<String> },
    /// Load the IPsec tunnels. The tunnels stay down where that fails.
    ApplyIpsec,
    /// Write the name servers to `/etc/resolv.conf`, where that is allowed.
    WriteResolvConf(String),
    ApplyQueues,
    ApplyRateLimits,
    /// Set the size of the state table, where the system has it.
    SetMaxStates(u64),
    /// Regenerate the DHCP server's configuration, where there is a server.
    RegenerateDhcp,
    /// Hand the rules of the VPNs to the rule engine.
    CollectVpnRules,
    ApplyRules,
    ApplyNat,
    ApplyGeoIp,
}

/// The value of a [`LiveOp`].
pub enum LiveStep {
    ApplyRoute(StaticRouteConfig, Option<Seq<char>>),
    ApplyIpsec,
    WriteResolvConf(Seq<char>),
    ApplyQueues,
    ApplyRateLimits,
    SetMaxStates(u64),
    RegenerateDhcp,
    CollectVpnRules,
    ApplyRules,
    ApplyNat,
    ApplyGeoIp,
}

impl View for LiveOp<'_> {
    type V = LiveStep;

    open spec fn view(&self) -> LiveStep {
        match *self {
            LiveOp::ApplyRoute { route, interface } => LiveStep::ApplyRoute(*route, option_view(interface)),
            LiveOp::ApplyIpsec => LiveStep::ApplyIpsec,
            LiveOp::WriteResolvConf(t) => LiveStep::WriteResolvConf(t@),
            LiveOp::ApplyQueues => LiveStep::ApplyQueues,
            LiveOp::ApplyRateLimits => LiveStep::ApplyRateLimits,
            LiveOp::SetMaxStates(n) => LiveStep::SetMaxStates(n),
            LiveOp::RegenerateDhcp => LiveStep::RegenerateDhcp,
            LiveOp::CollectVpnRules => LiveStep::CollectVpnRules,
            LiveOp::ApplyRules => LiveStep::ApplyRules,
            LiveOp::ApplyNat => LiveStep::ApplyNat,
            LiveOp::ApplyGeoIp => LiveStep::ApplyGeoIp,
        }
    }
}

/// The values of a list of changes.
pub open spec fn live_values(v: Seq<LiveOp<'_>>) -> Seq<LiveStep> {
    Seq::new(v.len(), |i: int| v[i]@)
}

fn push_live<'a>(out: &mut Vec<LiveOp<'a>>, op: LiveOp<'a>)
    ensures
        live_values(final(out)@) == live_values(old(out)@).push(op@),
{
    let ghost before = live_values(out@);
    let ghost o = op@;
    out.push(op);
    assert(live_values(out@) =~= before.push(o));
}

/// A change whose failure ends the restore. The others may be missing on a
/// machine, or are done again when it boots.
pub open spec fn is_required(s: LiveStep) -> bool {
    match s {
        LiveStep::ApplyRoute(_, _)
        | LiveStep::ApplyIpsec
        | LiveStep::WriteResolvConf(_)
        | LiveStep::SetMaxStates(_)
        | LiveStep::RegenerateDhcp => false,
        _ => true,
    }
}

/// Whether the failure of a change ends the restore.
pub fn live_op_required(op: &LiveOp<'_>) -> (r: bool)
    ensures
        r == is_required(op@),
{
    match op {
        LiveOp::ApplyRoute { .. }
        | LiveOp::ApplyIpsec
        | LiveOp::WriteResolvConf(_)
        | LiveOp::SetMaxStates(_)
        | LiveOp::RegenerateDhcp => false,
        _ => true,
    }
}

/// The enabled routes that are kept.
pub open spec fn route_lives(v: Seq<StaticRouteConfig>, m: Map<Seq<char>, Option<String>>) -> Seq<LiveStep>
    decreases v.len(),
{
    if v.len() == 0 {
        Seq::<LiveStep>::empty()
    } else {
        let init = route_lives(v.drop_last(), m);
        match placed(v.last().interface, m) {
            Some(i) => if v.last().enabled {
                init.push(LiveStep::ApplyRoute(v.last(), i))
            } else {
                init
            },
            None => init,
        }
    }
}

/// The sizes of the state table that enabled tuning entries give.
pub open spec fn tuning_lives(v: Seq<TuningEntry>) -> Seq<LiveStep>
    decreases v.len(),
{
    if v.len() == 0 {
        Seq::<LiveStep>::empty()
    } else {
        let init = tuning_lives(v.drop_last());
        let t = v.last();
        match parsed(t.value@, u64::MAX as nat) {
            Some(n) => if t.enabled && t.key@ == "pf.max_states"@ {
                init.push(LiveStep::SetMaxStates(n as u64))
            } else {
                init
            },
            None => init,
        }
    }
}

/// The text of `resolv.conf` for a list of servers.
pub open spec fn resolv_conf(servers: Seq<Seq<char>>) -> Seq<char> {
    join(wrapped("nameserver "@, servers, Seq::empty()), "\n"@)
}

/// All changes of the running system, in order.
pub open spec fn all_live_steps(c: FirewallConfig, m: Map<Seq<char>, Option<String>>) -> Seq<LiveStep> {
    let l = route_lives(c.static_routes@, m);
    let l = if c.vpn.ipsec_tunnels@.len() > 0 {
        l.push(LiveStep::ApplyIpsec)
    } else {
        l
    };
    let l = if c.system.dns_servers@.len() > 0 {
        l.push(LiveStep::WriteResolvConf(resolv_conf(views(c.system.dns_servers@))))
    } else {
        l
    };
    let l = l.push(LiveStep::ApplyQueues).push(LiveStep::ApplyRateLimits) + tuning_lives(c.tuning@);
    l.push(LiveStep::RegenerateDhcp).push(LiveStep::CollectVpnRules).push(LiveStep::ApplyRules).push(
        LiveStep::ApplyNat,
    ).push(LiveStep::ApplyGeoIp)
}

fn push_route_lives<'a>(out: &mut Vec<LiveOp<'a>>, v: &'a Vec<StaticRouteConfig>, map: &InterfaceMap)
    ensures
        live_values(final(out)@) == live_values(old(out)@) + route_lives(v@, map@),
{
    let ghost before = live_values(out@);
    let mut i: usize = 0;
    assert(before + route_lives(v@.take(0), map@) =~= before);
    while i < v.len()
        invariant
            i <= v@.len(),
            live_values(out@) == before + route_lives(v@.take(i as int), map@),
        decreases v.len() - i,
    {
        assert(v@.take(i + 1).drop_last() =~= v@.take(i as int));
        match place(&v[i].interface, map) {
            Some(interface) => {
                if v[i].enabled {
                    push_live(out, LiveOp::ApplyRoute { route: &v[i], interface });
                }
            },
            None => {},
        }
        assert(live_values(out@) =~= before + route_lives(v@.take(i + 1), map@));
        i = i + 1;
    }
    assert(v@.take(v@.len() as int) =~= v@);
}

fn push_tuning_lives<'a>(out: &mut Vec<LiveOp<'a>>, v: &Vec<TuningEntry>)
    ensures
        live_values(final(out)@) == live_values(old(out)@) + tuning_lives(v@),
{
    let ghost before = live_values(out@);
    let mut i: usize = 0;
    assert(before + tuning_lives(v@.take(0)) =~= before);
    while i < v.len()
        invariant
            i <= v@.len(),
            live_values(out@) == before + tuning_lives(v@.take(i as int)),
        decreases v.len() - i,
    {
        assert(v@.take(i + 1).drop_last() =~= v@.take(i as int));
        if v[i].enabled && same(v[i].key.as_str(), "pf.max_states") {
            match parse_u64(v[i].value.as_str()) {
                Some(n) => push_live(out, LiveOp::SetMaxStates(n)),
                None => {},
            }
        }
        assert(live_values(out@) =~= before + tuning_lives(v@.take(i + 1)));
        i = i + 1;
    }
    assert(v@.take(v@.len() as int) =~= v@);
}

fn live_ops<'a>(c: &'a FirewallConfig, map: &InterfaceMap) -> (out: Vec<LiveOp<'a>>)
    ensures
        live_values(out@) == all_live_steps(*c, map@),
{
    let mut out: Vec<LiveOp<'a>> = Vec::new();
    assert(live_values(out@) + route_lives(c.static_routes@, map@) =~= route_lives(c.static_routes@, map@));
    push_route_lives(&mut out, &c.static_routes, map);
    if c.vpn.ipsec_tunnels.len() > 0 {
        push_live(&mut out, LiveOp::ApplyIpsec);
    }
    if c.system.dns_servers.len() > 0 {
        let empty = String::new();
        assert(empty@ =~= Seq::<char>::empty());
        let lines = wrap_all("nameserver ", &c.system.dns_servers, empty.as_str());
        push_live(&mut out, LiveOp::WriteResolvConf(join_text(&lines, "\n")));
    }
    push_live(&mut out, LiveOp::ApplyQueues);
    push_live(&mut out, LiveOp::ApplyRateLimits);
    push_tuning_lives(&mut out, &c.tuning);
    push_live(&mut out, LiveOp::RegenerateDhcp);
    push_live(&mut out, LiveOp::CollectVpnRules);
    push_live(&mut out, LiveOp::ApplyRules);
    push_live(&mut out, LiveOp::ApplyNat);
    push_live(&mut out, LiveOp::ApplyGeoIp);
    out
}

/// What a restore does.
#[derive(Clone, Debug)]
pub struct RestorePlan<'a> {
    /// The changes of the database, made in one transaction.
    pub rows: Vec<RowOp<'a>>,
    /// The changes of the running system, made once the rows are committed.
    pub live: Vec<LiveOp<'a>>,
}

/// Plans the restore of a configuration: every tracked table is emptied and
/// filled from the configuration, then the running system is brought in line.
/// Entries on an interface that the map drops are left out. A configuration
/// that cannot be restored is refused before anything is planned.
pub fn apply_firewall_config<'a>(config: &'a FirewallConfig, iface_map: &InterfaceMap) -> (r: Result<
    RestorePlan<'a>,
    Status,
>)
    ensures
        r is Ok <==> restorable(*config, iface_map@),
        r matches Ok(p) ==> row_values(p.rows@) == all_row_steps(*config, iface_map@) && live_values(p.live@)
            == all_live_steps(*config, iface_map@),
        r matches Err(e) ==> e == Status::BadRequest,
{
    match validate_restore_target(config, iface_map) {
        Ok(_) => {},
        Err(e) => {
            return Err(e);
        },
    }
    let mut out: Vec<RowOp<'a>> = Vec::new();
    assert(row_values(out@) + policy_steps(*config, iface_map@) =~= policy_steps(*config, iface_map@));
    push_policy(&mut out, config, iface_map);
    push_service(&mut out, config, iface_map);
    apply_dhcp_section(&mut out, &config.dhcp);
    let ghost before = row_values(out@);
    match &config.dns_resolver {
        Some(c) => push_puts(&mut out, Table::DnsResolverConfig, &save_config(c)),
        None => {},
    }
    assert(row_values(out@) =~= before + resolver_steps(config.dns_resolver));
    Ok(RestorePlan { rows: out, live: live_ops(config, iface_map) })
}

// ---------------------------------------------------------------------------
// Reverting an unconfirmed change
// ---------------------------------------------------------------------------

/// The tables that a revert empties and fills.
pub open spec fn revert_tables() -> Seq<Table> {
    seq![Table::Rules, Table::NatRules, Table::Aliases, Table::StaticRoutes]
}

/// The changes of the database that a revert makes.
pub open spec fn revert_row_steps(c: FirewallConfig) -> Seq<RowStep> {
    let m = Map::<Seq<char>, Option<String>>::empty();
    clears(revert_tables()) + rule_steps(c.rules@, m) + nat_steps(c.nat@, m) + alias_steps(c.aliases@) + route_steps(
        c.static_routes@,
        m,
    )
}

/// The changes of the running system that a revert makes. The rules are loaded
/// together with those that the VPNs need at present.
pub open spec fn revert_live_steps(c: FirewallConfig) -> Seq<LiveStep> {
    route_lives(c.static_routes@, Map::<Seq<char>, Option<String>>::empty()).push(LiveStep::CollectVpnRules).push(
        LiveStep::ApplyRules,
    ).push(LiveStep::ApplyNat)
}

/// Plans how an unconfirmed change is put back: the rules, translations,
/// aliases and routes of the snapshot take the place of those that are there.
/// VPNs, Geo-IP rules and everything else stay as they are.
pub fn plan_revert<'a>(snapshot: &'a FirewallConfig) -> (r: Result<RestorePlan<'a>, Status>)
    ensures
        r is Ok <==> revertible(*snapshot),
        r matches Ok(p) ==> row_values(p.rows@) == revert_row_steps(*snapshot) && live_values(p.live@)
            == revert_live_steps(*snapshot),
        r matches Err(e) ==> e == Status::BadRequest,
{
    match validate_revert_target(snapshot) {
        Ok(_) => {},
        Err(e) => {
            return Err(e);
        },
    }
    let none = InterfaceMap::new();
    let mut rows: Vec<RowOp<'a>> = Vec::new();
    let tables = vec![Table::Rules, Table::NatRules, Table::Aliases, Table::StaticRoutes];
    push_clears(&mut rows, &tables);
    push_rule(&mut rows, &snapshot.rules, &none);
    push_nat(&mut rows, &snapshot.nat, &none);
    push_alias(&mut rows, &snapshot.aliases);
    push_route(&mut rows, &snapshot.static_routes, &none);
    assert(row_values(rows@) =~= revert_row_steps(*snapshot));
    let mut live: Vec<LiveOp<'a>> = Vec::new();
    push_route_lives(&mut live, &snapshot.static_routes, &none);
    push_live(&mut live, LiveOp::CollectVpnRules);
    push_live(&mut live, LiveOp::ApplyRules);
    push_live(&mut live, LiveOp::ApplyNat);
    assert(live_values(live@) =~= revert_live_steps(*snapshot));
    Ok(RestorePlan { rows, live })
}

// ---------------------------------------------------------------------------
// Laws
// ---------------------------------------------------------------------------

/// An operation on a table stands for the step with its values, each in its own place.
pub proof fn row_operations_hold_their_values(op: RowOp<'_>)
    ensures
        op matches RowOp::Clear(t) ==> op@ == (RowStep::Clear(t)),
        op matches RowOp::Put { table, key, value } ==> op@ == (RowStep::Put(table, key@, value@)),
        op matches RowOp::AddRule { id, rule, interface }
            ==> op@ == (RowStep::AddRule(id@, *rule, option_view(interface))),
        op matches RowOp::AddNat { id, translation, interface }
            ==> op@ == (RowStep::AddNat(id@, *translation, interface@)),
        op matches RowOp::AddAlias { id, alias } ==> op@ == (RowStep::AddAlias(id@, *alias)),
        op matches RowOp::AddRoute { route, interface } ==> op@ == (RowStep::AddRoute(*route, option_view(interface))),
        op matches RowOp::AddGeoIp { id, entry } ==> op@ == (RowStep::AddGeoIp(id@, *entry)),
        op matches RowOp::AddTunnel { id, tunnel, interface } ==> op@ == (RowStep::AddTunnel(id@, *tunnel, interface@)),
        op matches RowOp::AddPeer { id, peer } ==> op@ == (RowStep::AddPeer(id@, *peer)),
        op matches RowOp::AddSa { id, sa } ==> op@ == (RowStep::AddSa(id@, *sa)),
        op matches RowOp::AddIpsecTunnel { tunnel } ==> op@ == (RowStep::AddIpsecTunnel(*tunnel)),
        op matches RowOp::AddQueue { id, queue, interface } ==> op@ == (RowStep::AddQueue(id@, *queue, interface@)),
        op matches RowOp::AddRateLimit { id, limit, interface }
            ==> op@ == (RowStep::AddRateLimit(id@, *limit, option_view(interface))),
        op matches RowOp::AddSni { id, rule } ==> op@ == (RowStep::AddSni(id@, *rule)),
        op matches RowOp::AddJa3 { hash } ==> op@ == (RowStep::AddJa3(hash@)),
        op matches RowOp::AddVip { id, vip, interface } ==> op@ == (RowStep::AddVip(id@, *vip, interface@)),
        op matches RowOp::SetPfsync { entry, interface } ==> op@ == (RowStep::SetPfsync(*entry, interface@)),
        op matches RowOp::AddNode { id, node } ==> op@ == (RowStep::AddNode(id@, *node)),
        op matches RowOp::AddSubnet { subnet, relays, options }
            ==> op@ == (RowStep::AddSubnet(*subnet, relays@, Seq::new(options@.len(), |i: int| *options@[i]))),
        op matches RowOp::AddReservation { reservation } ==> op@ == (RowStep::AddReservation(*reservation)),
{
}

/// An operation on the running system stands for the step with its values.
pub proof fn live_operations_hold_their_values(op: LiveOp<'_>)
    ensures
        op matches LiveOp::ApplyRoute { route, interface }
            ==> op@ == (LiveStep::ApplyRoute(*route, option_view(interface))),
        op is ApplyIpsec ==> op@ == LiveStep::ApplyIpsec,
        op matches LiveOp::WriteResolvConf(t) ==> op@ == (LiveStep::WriteResolvConf(t@)),
        op is ApplyQueues ==> op@ == LiveStep::ApplyQueues,
        op is ApplyRateLimits ==> op@ == LiveStep::ApplyRateLimits,
        op matches LiveOp::SetMaxStates(n) ==> op@ == (LiveStep::SetMaxStates(n)),
        op is RegenerateDhcp ==> op@ == LiveStep::RegenerateDhcp,
        op is CollectVpnRules ==> op@ == LiveStep::CollectVpnRules,
        op is ApplyRules ==> op@ == LiveStep::ApplyRules,
        op is ApplyNat ==> op@ == LiveStep::ApplyNat,
        op is ApplyGeoIp ==> op@ == LiveStep::ApplyGeoIp,
{
}

/// Operations stand for their steps one by one, in order.
pub proof fn operations_stay_in_order(rows_done: Seq<RowOp<'_>>, lives: Seq<LiveOp<'_>>, i: int)
    ensures
        row_values(rows_done).len() == rows_done.len(),
        0 <= i < rows_done.len() ==> row_values(rows_done)[i] == rows_done[i]@,
        live_values(lives).len() == lives.len(),
        0 <= i < lives.len() ==> live_values(lives)[i] == lives[i]@,
{
}

} // verus!
