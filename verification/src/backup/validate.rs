//! Checking a configuration before anything is changed for it.

use vstd::prelude::*;

use crate::backup::convert::{nat_from_config, nat_parses, rule_from_config, rule_parses};
use crate::backup::interfaces::{map_iface, mapped, place, placed, InterfaceMap};
use crate::backup::model::{
    AliasConfig, ConfigAddress, FirewallConfig, GeoIpEntry, IpsecSaConfig, NatRuleConfig, RuleConfig, StaticRouteConfig,
    WireguardPeerConfig, WireguardTunnelConfig,
};
use crate::routes::static_routes::{is_route_target, validate_route_target};
use crate::status::Status;

verus! {

/// The largest priority that a rule can have.
pub const MAX_PRIORITY: i32 = 10000;

/// A rule that is dropped, or that is valid.
pub open spec fn rule_restorable(r: RuleConfig, m: Map<Seq<char>, Option<String>>) -> bool {
    placed(r.interface, m) is Some ==> rule_parses(r) && r.priority <= MAX_PRIORITY
}

fn check_rule(r: &RuleConfig, map: &InterfaceMap) -> (b: bool)
    ensures
        b == rule_restorable(*r, map@),
{
    match place(&r.interface, map) {
        Some(_) => rule_from_config(r).is_some() && r.priority <= MAX_PRIORITY,
        None => true,
    }
}

/// A translation rule that is dropped, or that is valid.
pub open spec fn nat_restorable(n: NatRuleConfig, m: Map<Seq<char>, Option<String>>) -> bool {
    mapped(n.interface@, m) is Some ==> nat_parses(n)
}

fn check_nat_rule(n: &NatRuleConfig, map: &InterfaceMap) -> (b: bool)
    ensures
        b == nat_restorable(*n, map@),
{
    match map_iface(n.interface.as_str(), map) {
        Some(_) => nat_from_config(n).is_some(),
        None => true,
    }
}

/// An alias of a known type.
pub open spec fn alias_restorable(a: AliasConfig, m: Map<Seq<char>, Option<String>>) -> bool {
    a.alias_type.valid
}

/// A route with a destination and a gateway.
pub open spec fn route_restorable(r: StaticRouteConfig, m: Map<Seq<char>, Option<String>>) -> bool {
    is_route_target(r.destination@) && is_route_target(r.gateway@)
}

fn check_route(r: &StaticRouteConfig) -> (b: bool)
    ensures
        b == (is_route_target(r.destination@) && is_route_target(r.gateway@)),
{
    validate_route_target(r.destination.as_str()).is_ok() && validate_route_target(r.gateway.as_str()).is_ok()
}

/// A Geo-IP rule of a known country.
pub open spec fn geoip_restorable(g: GeoIpEntry, m: Map<Seq<char>, Option<String>>) -> bool {
    g.country.valid
}

/// A security association between two addresses.
pub open spec fn sa_restorable(s: IpsecSaConfig, m: Map<Seq<char>, Option<String>>) -> bool {
    s.src_addr.parsed is Some && s.dst_addr.parsed is Some
}

/// Every address of the list is one.
pub open spec fn addresses_parse(l: Seq<ConfigAddress>) -> bool {
    forall|i: int| 0 <= i < l.len() ==> (#[trigger] l[i]).parsed is Some
}

/// Every peer may use addresses only.
pub open spec fn peers_parse(l: Seq<WireguardPeerConfig>) -> bool {
    forall|i: int| 0 <= i < l.len() ==> addresses_parse((#[trigger] l[i]).allowed_ips@)
}

/// A tunnel that is dropped, or whose addresses are addresses.
pub open spec fn tunnel_restorable(t: WireguardTunnelConfig, m: Map<Seq<char>, Option<String>>) -> bool {
    mapped(t.interface@, m) is Some ==> t.address.parsed is Some && (t.address6 is Some ==> t.address6->0.parsed is Some)
        && peers_parse(t.peers@)
}

fn check_addresses(l: &Vec<ConfigAddress>) -> (b: bool)
    ensures
        b == addresses_parse(l@),
{
    let mut i: usize = 0;
    while i < l.len()
        invariant
            i <= l@.len(),
            forall|k: int| 0 <= k < i ==> (#[trigger] l@[k]).parsed is Some,
        decreases l.len() - i,
    {
        if l[i].parsed.is_none() {
            return false;
        }
        i = i + 1;
    }
    true
}

fn check_peers(l: &Vec<WireguardPeerConfig>) -> (b: bool)
    ensures
        b == peers_parse(l@),
{
    let mut i: usize = 0;
    while i < l.len()
        invariant
            i <= l@.len(),
            forall|k: int| 0 <= k < i ==> addresses_parse((#[trigger] l@[k]).allowed_ips@),
        decreases l.len() - i,
    {
        if !check_addresses(&l[i].allowed_ips) {
            return false;
        }
        i = i + 1;
    }
    true
}

fn check_tunnel(t: &WireguardTunnelConfig, map: &InterfaceMap) -> (b: bool)
    ensures
        b == tunnel_restorable(*t, map@),
{
    match map_iface(t.interface.as_str(), map) {
        Some(_) => {
            let v6 = match &t.address6 {
                Some(a) => a.parsed.is_some(),
                None => true,
            };
            t.address.parsed.is_some() && v6 && check_peers(&t.peers)
        },
        None => true,
    }
}

/// Two tunnels that are kept listen on one port.
pub open spec fn ports_clash(
    v: Seq<WireguardTunnelConfig>,
    m: Map<Seq<char>, Option<String>>,
    i: int,
    j: int,
) -> bool {
    0 <= i < j < v.len() && v[i].listen_port == v[j].listen_port && mapped(v[i].interface@, m) is Some && mapped(
        v[j].interface@,
        m,
    ) is Some
}

/// No two tunnels that are kept listen on one port.
pub open spec fn ports_distinct(v: Seq<WireguardTunnelConfig>, m: Map<Seq<char>, Option<String>>) -> bool {
    forall|i: int, j: int| !#[trigger] ports_clash(v, m, i, j)
}

fn port_is_free(v: &Vec<WireguardTunnelConfig>, map: &InterfaceMap, j: usize) -> (b: bool)
    requires
        j < v@.len(),
    ensures
        b == forall|i: int| !#[trigger] ports_clash(v@, map@, i, j as int),
{
    if map_iface(v[j].interface.as_str(), map).is_none() {
        return true;
    }
    let mut i: usize = 0;
    while i < j
        invariant
            i <= j < v@.len(),
            mapped(v@[j as int].interface@, map@) is Some,
            forall|k: int| 0 <= k < i ==> !#[trigger] ports_clash(v@, map@, k, j as int),
        decreases j - i,
    {
        if v[i].listen_port == v[j].listen_port && map_iface(v[i].interface.as_str(), map).is_some() {
            assert(ports_clash(v@, map@, i as int, j as int));
            return false;
        }
        i = i + 1;
    }
    true
}

fn check_ports(v: &Vec<WireguardTunnelConfig>, map: &InterfaceMap) -> (b: bool)
    ensures
        b == ports_distinct(v@, map@),
{
    let mut j: usize = 0;
    while j < v.len()
        invariant
            j <= v@.len(),
            forall|i: int, k: int| k < j ==> !#[trigger] ports_clash(v@, map@, i, k),
        decreases v.len() - j,
    {
        if !port_is_free(v, map, j) {
            return false;
        }
        j = j + 1;
    }
    true
}

/// Every entry of the rules can be restored.
pub open spec fn rules_restorable(v: Seq<RuleConfig>, m: Map<Seq<char>, Option<String>>) -> bool {
    forall|i: int| 0 <= i < v.len() ==> rule_restorable(#[trigger] v[i], m)
}

fn check_rules(v: &Vec<RuleConfig>, map: &InterfaceMap) -> (r: bool)
    ensures
        r == rules_restorable(v@, map@),
{
    let mut i: usize = 0;
    while i < v.len()
        invariant
            i <= v@.len(),
            forall|k: int| 0 <= k < i ==> rule_restorable(#[trigger] v@[k], map@),
        decreases v.len() - i,
    {
        let ok = check_rule(&v[i], map);
        if !ok {
            assert(!rule_restorable(v@[i as int], map@));
            return false;
        }
        i = i + 1;
    }
    true
}

/// Every entry of the NAT rules can be restored.
pub open spec fn nat_rules_restorable(v: Seq<NatRuleConfig>, m: Map<Seq<char>, Option<String>>) -> bool {
    forall|i: int| 0 <= i < v.len() ==> nat_restorable(#[trigger] v[i], m)
}

fn check_nat_rules(v: &Vec<NatRuleConfig>, map: &InterfaceMap) -> (r: bool)
    ensures
        r == nat_rules_restorable(v@, map@),
{
    let mut i: usize = 0;
    while i < v.len()
        invariant
            i <= v@.len(),
            forall|k: int| 0 <= k < i ==> nat_restorable(#[trigger] v@[k], map@),
        decreases v.len() - i,
    {
        let ok = check_nat_rule(&v[i], map);
        if !ok {
            assert(!nat_restorable(v@[i as int], map@));
            return false;
        }
        i = i + 1;
    }
    true
}

/// Every entry of the aliases can be restored.
pub open spec fn aliases_restorable(v: Seq<AliasConfig>, m: Map<Seq<char>, Option<String>>) -> bool {
    forall|i: int| 0 <= i < v.len() ==> alias_restorable(#[trigger] v[i], m)
}

fn check_aliases(v: &Vec<AliasConfig>, map: &InterfaceMap) -> (r: bool)
    ensures
        r == aliases_restorable(v@, map@),
{
    let mut i: usize = 0;
    while i < v.len()
        invariant
            i <= v@.len(),
            forall|k: int| 0 <= k < i ==> alias_restorable(#[trigger] v@[k], map@),
        decreases v.len() - i,
    {
        let ok = v[i].alias_type.valid;
        if !ok {
            assert(!alias_restorable(v@[i as int], map@));
            return false;
        }
        i = i + 1;
    }
    true
}

/// Every entry of the static routes can be restored.
pub open spec fn static_routes_restorable(v: Seq<StaticRouteConfig>, m: Map<Seq<char>, Option<String>>) -> bool {
    forall|i: int| 0 <= i < v.len() ==> route_restorable(#[trigger] v[i], m)
}

fn check_static_routes(v: &Vec<StaticRouteConfig>, map: &InterfaceMap) -> (r: bool)
    ensures
        r == static_routes_restorable(v@, map@),
{
    let mut i: usize = 0;
    while i < v.len()
        invariant
            i <= v@.len(),
            forall|k: int| 0 <= k < i ==> route_restorable(#[trigger] v@[k], map@),
        decreases v.len() - i,
    {
        let ok = check_route(&v[i]);
        if !ok {
            assert(!route_restorable(v@[i as int], map@));
            return false;
        }
        i = i + 1;
    }
    true
}

/// Every entry of the Geo-IP rules can be restored.
pub open spec fn geoip_rules_restorable(v: Seq<GeoIpEntry>, m: Map<Seq<char>, Option<String>>) -> bool {
    forall|i: int| 0 <= i < v.len() ==> geoip_restorable(#[trigger] v[i], m)
}

fn check_geoip_rules(v: &Vec<GeoIpEntry>, map: &InterfaceMap) -> (r: bool)
    ensures
        r == geoip_rules_restorable(v@, map@),
{
    let mut i: usize = 0;
    while i < v.len()
        invariant
            i <= v@.len(),
            forall|k: int| 0 <= k < i ==> geoip_restorable(#[trigger] v@[k], map@),
        decreases v.len() - i,
    {
        let ok = v[i].country.valid;
        if !ok {
            assert(!geoip_restorable(v@[i as int], map@));
            return false;
        }
        i = i + 1;
    }
    true
}

/// Every entry of the WireGuard tunnels can be restored.
pub open spec fn tunnels_restorable(v: Seq<WireguardTunnelConfig>, m: Map<Seq<char>, Option<String>>) -> bool {
    forall|i: int| 0 <= i < v.len() ==> tunnel_restorable(#[trigger] v[i], m)
}

fn check_tunnels(v: &Vec<WireguardTunnelConfig>, map: &InterfaceMap) -> (r: bool)
    ensures
        r == tunnels_restorable(v@, map@),
{
    let mut i: usize = 0;
    while i < v.len()
        invariant
            i <= v@.len(),
            forall|k: int| 0 <= k < i ==> tunnel_restorable(#[trigger] v@[k], map@),
        decreases v.len() - i,
    {
        let ok = check_tunnel(&v[i], map);
        if !ok {
            assert(!tunnel_restorable(v@[i as int], map@));
            return false;
        }
        i = i + 1;
    }
    true
}

/// Every entry of the IPsec associations can be restored.
pub open spec fn sas_restorable(v: Seq<IpsecSaConfig>, m: Map<Seq<char>, Option<String>>) -> bool {
    forall|i: int| 0 <= i < v.len() ==> sa_restorable(#[trigger] v[i], m)
}

fn check_sas(v: &Vec<IpsecSaConfig>, map: &InterfaceMap) -> (r: bool)
    ensures
        r == sas_restorable(v@, map@),
{
    let mut i: usize = 0;
    while i < v.len()
        invariant
            i <= v@.len(),
            forall|k: int| 0 <= k < i ==> sa_restorable(#[trigger] v@[k], map@),
        decreases v.len() - i,
    {
        let ok = v[i].src_addr.parsed.is_some() && v[i].dst_addr.parsed.is_some();
        if !ok {
            assert(!sa_restorable(v@[i as int], map@));
            return false;
        }
        i = i + 1;
    }
    true
}

/// A configuration that can be restored under the map: whatever is not dropped
/// is valid, and no two WireGuard tunnels want one port.
pub open spec fn restorable(c: FirewallConfig, m: Map<Seq<char>, Option<String>>) -> bool {
    &&& rules_restorable(c.rules@, m)
    &&& nat_rules_restorable(c.nat@, m)
    &&& aliases_restorable(c.aliases@, m)
    &&& static_routes_restorable(c.static_routes@, m)
    &&& geoip_rules_restorable(c.geoip@, m)
    &&& tunnels_restorable(c.vpn.wireguard@, m)
    &&& ports_distinct(c.vpn.wireguard@, m)
    &&& sas_restorable(c.vpn.ipsec@, m)
}

/// Checks every required entry before the first row is deleted. A
/// configuration that cannot be restored is a bad request.
pub fn validate_restore_target(config: &FirewallConfig, iface_map: &InterfaceMap) -> (r: Result<(), Status>)
    ensures
        r is Ok <==> restorable(*config, iface_map@),
        r matches Err(e) ==> e == Status::BadRequest,
{
    if check_rules(&config.rules, iface_map) && check_nat_rules(&config.nat, iface_map) && check_aliases(
        &config.aliases,
        iface_map,
    ) && check_static_routes(&config.static_routes, iface_map) && check_geoip_rules(&config.geoip, iface_map)
        && check_tunnels(&config.vpn.wireguard, iface_map) && check_ports(&config.vpn.wireguard, iface_map) && check_sas(
        &config.vpn.ipsec,
        iface_map,
    ) {
        Ok(())
    } else {
        Err(Status::BadRequest)
    }
}

/// A configuration whose rules, translations, aliases and routes can be put
/// back.
pub open spec fn revertible(c: FirewallConfig) -> bool {
    let m = Map::<Seq<char>, Option<String>>::empty();
    &&& rules_restorable(c.rules@, m)
    &&& nat_rules_restorable(c.nat@, m)
    &&& aliases_restorable(c.aliases@, m)
    &&& static_routes_restorable(c.static_routes@, m)
}

/// Checks what a revert puts back.
pub fn validate_revert_target(config: &FirewallConfig) -> (r: Result<(), Status>)
    ensures
        r is Ok <==> revertible(*config),
        r matches Err(e) ==> e == Status::BadRequest,
{
    let none = InterfaceMap::new();
    if check_rules(&config.rules, &none) && check_nat_rules(&config.nat, &none) && check_aliases(&config.aliases, &none)
        && check_static_routes(&config.static_routes, &none) {
        Ok(())
    } else {
        Err(Status::BadRequest)
    }
}

} // verus!
