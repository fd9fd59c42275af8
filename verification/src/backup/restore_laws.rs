//! What a restore does with each entry of a backup: where it goes, and that no
//! entry is lost, doubled or made up.

use vstd::prelude::*;
use vstd::string::*;

use crate::backup::convert::{
    is_limit_of, is_nat_of, is_node_of, is_queue_of, is_rule_of, is_sni_of, is_vip_of, CarpVip, ClusterNode, NatRule,
    QueueConfig, RateLimitRule, Rule, SniRule,
};
use crate::backup::dhcp::{
    is_safe_option, safe_options, usable_relays, DhcpOptionOverrideConfig, DhcpReservationConfig, DhcpSection,
    DhcpSubnetConfig,
};
use crate::backup::dhcp_settings::{ddns_rows, global_rows, ha_rows};
use crate::backup::entities::{is_entity_of, Entity};
use crate::backup::interfaces::InterfaceMap;
use crate::backup::model::{
    Address, AliasConfig, AuthConfig, CarpVipConfig, ClusterNodeConfig, FirewallConfig, GeoIpEntry, IpsecSaConfig,
    IpsecTunnel, NatRuleConfig, PfsyncEntry, PortRange, QueueConfigEntry, RateLimitEntry, RuleConfig, SniRuleConfig,
    StaticRouteConfig, TuningEntry, WireguardPeerConfig, WireguardTunnelConfig,
};
use crate::backup::plan::{
    alias_steps, all_live_steps, all_row_steps, apply_firewall_config, auth_rows, base_tables, clears, dhcp_steps,
    geoip_steps, ipsec_tunnel_steps, is_required, ja3_steps, limit_steps, nat_steps, node_steps, peer_steps,
    pfsync_steps, policy_steps, puts, queue_steps, reservation_steps, resolv_conf, resolver_steps, revert_live_steps,
    revert_row_steps, route_lives, route_steps, row_values, rule_steps, sa_steps, service_steps, sni_steps, subnet_step,
    subnet_steps, table_name, tuning_lives, tunnel_steps, vip_steps, LiveStep, RestorePlan, RowStep, Table,
};
use crate::backup::validate::{
    addresses_parse, alias_restorable, geoip_restorable, nat_restorable, peers_parse, ports_clash, ports_distinct,
    restorable, revertible, route_restorable, rule_restorable, sa_restorable, tunnel_restorable,
};
use crate::identifiers::{id_of};
use crate::json::json_of_texts;
use crate::kv::option_view;
use crate::lists::append_holds;
use crate::net::is_ip;
use crate::number::{dec, dec_int};
use crate::routes::static_routes::is_route_target;
use crate::status::Status;
use crate::text::{split, split_of_join, views, wrapped};

verus! {

/// The map sends the interface `name` to `t`: to the name that it gives, or to
/// the same name where it says nothing.
pub open spec fn sends(m: Map<Seq<char>, Option<String>>, name: Seq<char>, t: Seq<char>) -> bool {
    if m.contains_key(name) {
        m[name] is Some && m[name]->0@ == t
    } else {
        t == name
    }
}

/// The map drops what is on the interface `name`.
pub open spec fn drops(m: Map<Seq<char>, Option<String>>, name: Seq<char>) -> bool {
    m.contains_key(name) && m[name] is None
}


/// The rules of a backup are taken one after the other, in their order.
pub proof fn rules_in_order(a: Seq<RuleConfig>, b: Seq<RuleConfig>, m: Map<Seq<char>, Option<String>>)
    ensures
        rule_steps(Seq::<RuleConfig>::empty(), m) == Seq::<RowStep>::empty(),
        rule_steps(a + b, m) == rule_steps(a, m) + rule_steps(b, m),
    decreases b.len(),
{
    if b.len() == 0 {
        assert(a + b =~= a);
        assert(rule_steps(a, m) + rule_steps(b, m) =~= rule_steps(a, m));
    } else {
        assert((a + b).drop_last() =~= a + b.drop_last());
        rules_in_order(a, b.drop_last(), m);
        assert(rule_steps(a + b, m) =~= rule_steps(a, m) + rule_steps(b, m));
    }
}

/// So are the translations.
pub proof fn translations_in_order(a: Seq<NatRuleConfig>, b: Seq<NatRuleConfig>, m: Map<Seq<char>, Option<String>>)
    ensures
        nat_steps(Seq::<NatRuleConfig>::empty(), m) == Seq::<RowStep>::empty(),
        nat_steps(a + b, m) == nat_steps(a, m) + nat_steps(b, m),
    decreases b.len(),
{
    if b.len() == 0 {
        assert(a + b =~= a);
        assert(nat_steps(a, m) + nat_steps(b, m) =~= nat_steps(a, m));
    } else {
        assert((a + b).drop_last() =~= a + b.drop_last());
        translations_in_order(a, b.drop_last(), m);
        assert(nat_steps(a + b, m) =~= nat_steps(a, m) + nat_steps(b, m));
    }
}

/// So are the aliases.
pub proof fn aliases_in_order(a: Seq<AliasConfig>, b: Seq<AliasConfig>)
    ensures
        alias_steps(Seq::<AliasConfig>::empty()) == Seq::<RowStep>::empty(),
        alias_steps(a + b) == alias_steps(a) + alias_steps(b),
    decreases b.len(),
{
    if b.len() == 0 {
        assert(a + b =~= a);
        assert(alias_steps(a) + alias_steps(b) =~= alias_steps(a));
    } else {
        assert((a + b).drop_last() =~= a + b.drop_last());
        aliases_in_order(a, b.drop_last());
        assert(alias_steps(a + b) =~= alias_steps(a) + alias_steps(b));
    }
}

/// So are the static routes.
pub proof fn routes_in_order(a: Seq<StaticRouteConfig>, b: Seq<StaticRouteConfig>, m: Map<Seq<char>, Option<String>>)
    ensures
        route_steps(Seq::<StaticRouteConfig>::empty(), m) == Seq::<RowStep>::empty(),
        route_steps(a + b, m) == route_steps(a, m) + route_steps(b, m),
    decreases b.len(),
{
    if b.len() == 0 {
        assert(a + b =~= a);
        assert(route_steps(a, m) + route_steps(b, m) =~= route_steps(a, m));
    } else {
        assert((a + b).drop_last() =~= a + b.drop_last());
        routes_in_order(a, b.drop_last(), m);
        assert(route_steps(a + b, m) =~= route_steps(a, m) + route_steps(b, m));
    }
}

/// So are the Geo-IP rules.
pub proof fn geoip_in_order(a: Seq<GeoIpEntry>, b: Seq<GeoIpEntry>)
    ensures
        geoip_steps(Seq::<GeoIpEntry>::empty()) == Seq::<RowStep>::empty(),
        geoip_steps(a + b) == geoip_steps(a) + geoip_steps(b),
    decreases b.len(),
{
    if b.len() == 0 {
        assert(a + b =~= a);
        assert(geoip_steps(a) + geoip_steps(b) =~= geoip_steps(a));
    } else {
        assert((a + b).drop_last() =~= a + b.drop_last());
        geoip_in_order(a, b.drop_last());
        assert(geoip_steps(a + b) =~= geoip_steps(a) + geoip_steps(b));
    }
}

/// So are the peers of a tunnel.
pub proof fn peers_in_order(a: Seq<WireguardPeerConfig>, b: Seq<WireguardPeerConfig>)
    ensures
        peer_steps(Seq::<WireguardPeerConfig>::empty()) == Seq::<RowStep>::empty(),
        peer_steps(a + b) == peer_steps(a) + peer_steps(b),
    decreases b.len(),
{
    if b.len() == 0 {
        assert(a + b =~= a);
        assert(peer_steps(a) + peer_steps(b) =~= peer_steps(a));
    } else {
        assert((a + b).drop_last() =~= a + b.drop_last());
        peers_in_order(a, b.drop_last());
        assert(peer_steps(a + b) =~= peer_steps(a) + peer_steps(b));
    }
}

/// So are the WireGuard tunnels.
pub proof fn tunnels_in_order(a: Seq<WireguardTunnelConfig>, b: Seq<WireguardTunnelConfig>, m: Map<Seq<char>,
    Option<String>>)
    ensures
        tunnel_steps(Seq::<WireguardTunnelConfig>::empty(), m) == Seq::<RowStep>::empty(),
        tunnel_steps(a + b, m) == tunnel_steps(a, m) + tunnel_steps(b, m),
    decreases b.len(),
{
    if b.len() == 0 {
        assert(a + b =~= a);
        assert(tunnel_steps(a, m) + tunnel_steps(b, m) =~= tunnel_steps(a, m));
    } else {
        assert((a + b).drop_last() =~= a + b.drop_last());
        tunnels_in_order(a, b.drop_last(), m);
        assert(tunnel_steps(a + b, m) =~= tunnel_steps(a, m) + tunnel_steps(b, m));
    }
}

/// So are the IPsec associations.
pub proof fn sas_in_order(a: Seq<IpsecSaConfig>, b: Seq<IpsecSaConfig>)
    ensures
        sa_steps(Seq::<IpsecSaConfig>::empty()) == Seq::<RowStep>::empty(),
        sa_steps(a + b) == sa_steps(a) + sa_steps(b),
    decreases b.len(),
{
    if b.len() == 0 {
        assert(a + b =~= a);
        assert(sa_steps(a) + sa_steps(b) =~= sa_steps(a));
    } else {
        assert((a + b).drop_last() =~= a + b.drop_last());
        sas_in_order(a, b.drop_last());
        assert(sa_steps(a + b) =~= sa_steps(a) + sa_steps(b));
    }
}

/// So are the IPsec tunnels.
pub proof fn ipsec_tunnels_in_order(a: Seq<IpsecTunnel>, b: Seq<IpsecTunnel>)
    ensures
        ipsec_tunnel_steps(Seq::<IpsecTunnel>::empty()) == Seq::<RowStep>::empty(),
        ipsec_tunnel_steps(a + b) == ipsec_tunnel_steps(a) + ipsec_tunnel_steps(b),
    decreases b.len(),
{
    if b.len() == 0 {
        assert(a + b =~= a);
        assert(ipsec_tunnel_steps(a) + ipsec_tunnel_steps(b) =~= ipsec_tunnel_steps(a));
    } else {
        assert((a + b).drop_last() =~= a + b.drop_last());
        ipsec_tunnels_in_order(a, b.drop_last());
        assert(ipsec_tunnel_steps(a + b) =~= ipsec_tunnel_steps(a) + ipsec_tunnel_steps(b));
    }
}

/// So are the queues.
pub proof fn queues_in_order(a: Seq<QueueConfigEntry>, b: Seq<QueueConfigEntry>, m: Map<Seq<char>, Option<String>>)
    ensures
        queue_steps(Seq::<QueueConfigEntry>::empty(), m) == Seq::<RowStep>::empty(),
        queue_steps(a + b, m) == queue_steps(a, m) + queue_steps(b, m),
    decreases b.len(),
{
    if b.len() == 0 {
        assert(a + b =~= a);
        assert(queue_steps(a, m) + queue_steps(b, m) =~= queue_steps(a, m));
    } else {
        assert((a + b).drop_last() =~= a + b.drop_last());
        queues_in_order(a, b.drop_last(), m);
        assert(queue_steps(a + b, m) =~= queue_steps(a, m) + queue_steps(b, m));
    }
}

/// So are the rate limits.
pub proof fn limits_in_order(a: Seq<RateLimitEntry>, b: Seq<RateLimitEntry>, m: Map<Seq<char>, Option<String>>)
    ensures
        limit_steps(Seq::<RateLimitEntry>::empty(), m) == Seq::<RowStep>::empty(),
        limit_steps(a + b, m) == limit_steps(a, m) + limit_steps(b, m),
    decreases b.len(),
{
    if b.len() == 0 {
        assert(a + b =~= a);
        assert(limit_steps(a, m) + limit_steps(b, m) =~= limit_steps(a, m));
    } else {
        assert((a + b).drop_last() =~= a + b.drop_last());
        limits_in_order(a, b.drop_last(), m);
        assert(limit_steps(a + b, m) =~= limit_steps(a, m) + limit_steps(b, m));
    }
}

/// So are the rules for server names.
pub proof fn sni_rules_in_order(a: Seq<SniRuleConfig>, b: Seq<SniRuleConfig>)
    ensures
        sni_steps(Seq::<SniRuleConfig>::empty()) == Seq::<RowStep>::empty(),
        sni_steps(a + b) == sni_steps(a) + sni_steps(b),
    decreases b.len(),
{
    if b.len() == 0 {
        assert(a + b =~= a);
        assert(sni_steps(a) + sni_steps(b) =~= sni_steps(a));
    } else {
        assert((a + b).drop_last() =~= a + b.drop_last());
        sni_rules_in_order(a, b.drop_last());
        assert(sni_steps(a + b) =~= sni_steps(a) + sni_steps(b));
    }
}

/// So are the fingerprints.
pub proof fn fingerprints_in_order(a: Seq<String>, b: Seq<String>)
    ensures
        ja3_steps(Seq::<String>::empty()) == Seq::<RowStep>::empty(),
        ja3_steps(a + b) == ja3_steps(a) + ja3_steps(b),
    decreases b.len(),
{
    if b.len() == 0 {
        assert(a + b =~= a);
        assert(ja3_steps(a) + ja3_steps(b) =~= ja3_steps(a));
    } else {
        assert((a + b).drop_last() =~= a + b.drop_last());
        fingerprints_in_order(a, b.drop_last());
        assert(ja3_steps(a + b) =~= ja3_steps(a) + ja3_steps(b));
    }
}

/// So are the shared addresses.
pub proof fn addresses_in_order(a: Seq<CarpVipConfig>, b: Seq<CarpVipConfig>, m: Map<Seq<char>, Option<String>>)
    ensures
        vip_steps(Seq::<CarpVipConfig>::empty(), m) == Seq::<RowStep>::empty(),
        vip_steps(a + b, m) == vip_steps(a, m) + vip_steps(b, m),
    decreases b.len(),
{
    if b.len() == 0 {
        assert(a + b =~= a);
        assert(vip_steps(a, m) + vip_steps(b, m) =~= vip_steps(a, m));
    } else {
        assert((a + b).drop_last() =~= a + b.drop_last());
        addresses_in_order(a, b.drop_last(), m);
        assert(vip_steps(a + b, m) =~= vip_steps(a, m) + vip_steps(b, m));
    }
}

/// So are the nodes.
pub proof fn nodes_in_order(a: Seq<ClusterNodeConfig>, b: Seq<ClusterNodeConfig>)
    ensures
        node_steps(Seq::<ClusterNodeConfig>::empty()) == Seq::<RowStep>::empty(),
        node_steps(a + b) == node_steps(a) + node_steps(b),
    decreases b.len(),
{
    if b.len() == 0 {
        assert(a + b =~= a);
        assert(node_steps(a) + node_steps(b) =~= node_steps(a));
    } else {
        assert((a + b).drop_last() =~= a + b.drop_last());
        nodes_in_order(a, b.drop_last());
        assert(node_steps(a + b) =~= node_steps(a) + node_steps(b));
    }
}

/// So are the subnets.
pub proof fn subnets_in_order(a: Seq<DhcpSubnetConfig>, b: Seq<DhcpSubnetConfig>)
    ensures
        subnet_steps(Seq::<DhcpSubnetConfig>::empty()) == Seq::<RowStep>::empty(),
        subnet_steps(a + b) == subnet_steps(a) + subnet_steps(b),
    decreases b.len(),
{
    if b.len() == 0 {
        assert(a + b =~= a);
        assert(subnet_steps(a) + subnet_steps(b) =~= subnet_steps(a));
    } else {
        assert((a + b).drop_last() =~= a + b.drop_last());
        subnets_in_order(a, b.drop_last());
        assert(subnet_steps(a + b) =~= subnet_steps(a) + subnet_steps(b));
    }
}

/// So are the reservations.
pub proof fn reservations_in_order(a: Seq<DhcpReservationConfig>, b: Seq<DhcpReservationConfig>)
    ensures
        reservation_steps(Seq::<DhcpReservationConfig>::empty()) == Seq::<RowStep>::empty(),
        reservation_steps(a + b) == reservation_steps(a) + reservation_steps(b),
    decreases b.len(),
{
    if b.len() == 0 {
        assert(a + b =~= a);
        assert(reservation_steps(a) + reservation_steps(b) =~= reservation_steps(a));
    } else {
        assert((a + b).drop_last() =~= a + b.drop_last());
        reservations_in_order(a, b.drop_last());
        assert(reservation_steps(a + b) =~= reservation_steps(a) + reservation_steps(b));
    }
}

/// The kernel gets the routes in their order.
pub proof fn live_routes_in_order(a: Seq<StaticRouteConfig>, b: Seq<StaticRouteConfig>, m: Map<Seq<char>,
    Option<String>>)
    ensures
        route_lives(Seq::<StaticRouteConfig>::empty(), m) == Seq::<LiveStep>::empty(),
        route_lives(a + b, m) == route_lives(a, m) + route_lives(b, m),
    decreases b.len(),
{
    if b.len() == 0 {
        assert(a + b =~= a);
        assert(route_lives(a, m) + route_lives(b, m) =~= route_lives(a, m));
    } else {
        assert((a + b).drop_last() =~= a + b.drop_last());
        live_routes_in_order(a, b.drop_last(), m);
        assert(route_lives(a + b, m) =~= route_lives(a, m) + route_lives(b, m));
    }
}

/// The tuning is applied in its order.
pub proof fn tuning_in_order(a: Seq<TuningEntry>, b: Seq<TuningEntry>)
    ensures
        tuning_lives(Seq::<TuningEntry>::empty()) == Seq::<LiveStep>::empty(),
        tuning_lives(a + b) == tuning_lives(a) + tuning_lives(b),
    decreases b.len(),
{
    if b.len() == 0 {
        assert(a + b =~= a);
        assert(tuning_lives(a) + tuning_lives(b) =~= tuning_lives(a));
    } else {
        assert((a + b).drop_last() =~= a + b.drop_last());
        tuning_in_order(a, b.drop_last());
        assert(tuning_lives(a + b) =~= tuning_lives(a) + tuning_lives(b));
    }
}

/// A translation is added on the interface that the map sends its own to, and
/// left out where the map drops it.
pub proof fn translation_goes_where_the_map_sends_it(x: NatRuleConfig, m: Map<Seq<char>, Option<String>>, t: Seq<char>)
    ensures
        sends(m, x.interface@, t) ==> nat_steps(Seq::<NatRuleConfig>::empty().push(x),
            m) == Seq::<RowStep>::empty().push(
            RowStep::AddNat(id_of(x.id@), x, t),
        ),
        drops(m, x.interface@) ==> nat_steps(Seq::<NatRuleConfig>::empty().push(x), m) == Seq::<RowStep>::empty(),
{
    reveal_with_fuel(nat_steps, 2);
    assert(Seq::<NatRuleConfig>::empty().push(x).drop_last() =~= Seq::<NatRuleConfig>::empty());
}

/// A queue is added on the interface that the map sends its own to, and left out
/// where the map drops it.
pub proof fn queue_goes_where_the_map_sends_it(x: QueueConfigEntry, m: Map<Seq<char>, Option<String>>, t: Seq<char>)
    ensures
        sends(m, x.interface@, t) ==> queue_steps(Seq::<QueueConfigEntry>::empty().push(x),
            m) == Seq::<RowStep>::empty().push(
            RowStep::AddQueue(id_of(x.id@), x, t),
        ),
        drops(m, x.interface@) ==> queue_steps(Seq::<QueueConfigEntry>::empty().push(x), m) == Seq::<RowStep>::empty(),
{
    reveal_with_fuel(queue_steps, 2);
    assert(Seq::<QueueConfigEntry>::empty().push(x).drop_last() =~= Seq::<QueueConfigEntry>::empty());
}

/// A WireGuard tunnel is added on the interface that the map sends its own to,
/// its peers right behind it; a tunnel that the map drops takes its peers along.
pub proof fn tunnel_goes_where_the_map_sends_it(x: WireguardTunnelConfig, m: Map<Seq<char>, Option<String>>,
    t: Seq<char>)
    ensures
        sends(m, x.interface@, t) ==> tunnel_steps(Seq::<WireguardTunnelConfig>::empty().push(x),
            m) == Seq::<RowStep>::empty().push(
            RowStep::AddTunnel(id_of(x.id@), x, t),
        ) + peer_steps(x.peers@),
        drops(m, x.interface@) ==> tunnel_steps(Seq::<WireguardTunnelConfig>::empty().push(x),
            m) == Seq::<RowStep>::empty(),
{
    reveal_with_fuel(tunnel_steps, 2);
    assert(Seq::<WireguardTunnelConfig>::empty().push(x).drop_last() =~= Seq::<WireguardTunnelConfig>::empty());
    assert(Seq::<RowStep>::empty() + peer_steps(x.peers@) =~= peer_steps(x.peers@));
}

/// A shared address is added on the interface that the map sends its own to; one
/// that is no address is left out.
pub proof fn shared_address_goes_where_the_map_sends_it(x: CarpVipConfig, m: Map<Seq<char>, Option<String>>,
    t: Seq<char>)
    ensures
        sends(m, x.interface@, t) && is_ip(x.virtual_ip@)
            ==> vip_steps(Seq::<CarpVipConfig>::empty().push(x), m) == Seq::<RowStep>::empty().push(
            RowStep::AddVip(id_of(x.id@), x, t),
        ),
        drops(m, x.interface@) || !is_ip(x.virtual_ip@)
            ==> vip_steps(Seq::<CarpVipConfig>::empty().push(x), m) == Seq::<RowStep>::empty(),
{
    reveal_with_fuel(vip_steps, 2);
    assert(Seq::<CarpVipConfig>::empty().push(x).drop_last() =~= Seq::<CarpVipConfig>::empty());
}

/// A rule is added on the interface that the map sends its own to. A rule for
/// every interface stays one, and one that the map drops is left out.
pub proof fn rule_goes_where_the_map_sends_it(x: RuleConfig, m: Map<Seq<char>, Option<String>>, t: Seq<char>)
    ensures
        x.interface is Some && sends(m, x.interface->0@, t)
            ==> rule_steps(Seq::<RuleConfig>::empty().push(x), m) == Seq::<RowStep>::empty().push(
            RowStep::AddRule(id_of(x.id@), x, Some(t)),
        ),
        x.interface is None ==> rule_steps(Seq::<RuleConfig>::empty().push(x),
            m) == Seq::<RowStep>::empty().push(RowStep::AddRule(id_of(x.id@), x, None)),
        x.interface is Some && drops(m, x.interface->0@)
            ==> rule_steps(Seq::<RuleConfig>::empty().push(x), m) == Seq::<RowStep>::empty(),
{
    reveal_with_fuel(rule_steps, 2);
    assert(Seq::<RuleConfig>::empty().push(x).drop_last() =~= Seq::<RuleConfig>::empty());
}

/// A rate limit is added on the interface that the map sends its own to, or for
/// every interface where it has none.
pub proof fn limit_goes_where_the_map_sends_it(x: RateLimitEntry, m: Map<Seq<char>, Option<String>>, t: Seq<char>)
    ensures
        x.interface is Some && sends(m, x.interface->0@, t)
            ==> limit_steps(Seq::<RateLimitEntry>::empty().push(x), m) == Seq::<RowStep>::empty().push(
            RowStep::AddRateLimit(id_of(x.id@), x, Some(t)),
        ),
        x.interface is None ==> limit_steps(Seq::<RateLimitEntry>::empty().push(x),
            m) == Seq::<RowStep>::empty().push(RowStep::AddRateLimit(id_of(x.id@), x, None)),
        x.interface is Some && drops(m, x.interface->0@)
            ==> limit_steps(Seq::<RateLimitEntry>::empty().push(x), m) == Seq::<RowStep>::empty(),
{
    reveal_with_fuel(limit_steps, 2);
    assert(Seq::<RateLimitEntry>::empty().push(x).drop_last() =~= Seq::<RateLimitEntry>::empty());
}

/// A static route is added on the interface that the map sends its own to, or
/// without one where it has none.
pub proof fn route_goes_where_the_map_sends_it(x: StaticRouteConfig, m: Map<Seq<char>, Option<String>>, t: Seq<char>)
    ensures
        x.interface is Some && sends(m, x.interface->0@, t)
            ==> route_steps(Seq::<StaticRouteConfig>::empty().push(x), m) == Seq::<RowStep>::empty().push(
            RowStep::AddRoute(x, Some(t)),
        ),
        x.interface is None ==> route_steps(Seq::<StaticRouteConfig>::empty().push(x),
            m) == Seq::<RowStep>::empty().push(RowStep::AddRoute(x, None)),
        x.interface is Some && drops(m, x.interface->0@)
            ==> route_steps(Seq::<StaticRouteConfig>::empty().push(x), m) == Seq::<RowStep>::empty(),
{
    reveal_with_fuel(route_steps, 2);
    assert(Seq::<StaticRouteConfig>::empty().push(x).drop_last() =~= Seq::<StaticRouteConfig>::empty());
}

/// The kernel gets a route on the interface that the map sends its own to, where
/// the route is enabled, and only then.
pub proof fn enabled_routes_reach_the_kernel(x: StaticRouteConfig, m: Map<Seq<char>, Option<String>>, t: Seq<char>)
    ensures
        x.interface is Some && sends(m, x.interface->0@, t) && x.enabled
            ==> route_lives(Seq::<StaticRouteConfig>::empty().push(x), m) == Seq::<LiveStep>::empty().push(
            LiveStep::ApplyRoute(x, Some(t)),
        ),
        x.interface is None && x.enabled ==> route_lives(Seq::<StaticRouteConfig>::empty().push(x),
            m) == Seq::<LiveStep>::empty().push(LiveStep::ApplyRoute(x, None)),
        x.interface is Some && drops(m, x.interface->0@)
            ==> route_lives(Seq::<StaticRouteConfig>::empty().push(x), m) == Seq::<LiveStep>::empty(),
        !x.enabled ==> route_lives(Seq::<StaticRouteConfig>::empty().push(x), m) == Seq::<LiveStep>::empty(),
{
    reveal_with_fuel(route_lives, 2);
    assert(Seq::<StaticRouteConfig>::empty().push(x).drop_last() =~= Seq::<StaticRouteConfig>::empty());
}

/// An alias is added as it is.
pub proof fn alias_is_added(x: AliasConfig)
    ensures
        alias_steps(Seq::<AliasConfig>::empty().push(x))
            == Seq::<RowStep>::empty().push(RowStep::AddAlias(id_of(x.id@), x)),
{
    reveal_with_fuel(alias_steps, 2);
    assert(Seq::<AliasConfig>::empty().push(x).drop_last() =~= Seq::<AliasConfig>::empty());
}

/// A Geo-IP rule is added as it is.
pub proof fn geoip_rule_is_added(x: GeoIpEntry)
    ensures
        geoip_steps(Seq::<GeoIpEntry>::empty().push(x))
            == Seq::<RowStep>::empty().push(RowStep::AddGeoIp(id_of(x.id@), x)),
{
    reveal_with_fuel(geoip_steps, 2);
    assert(Seq::<GeoIpEntry>::empty().push(x).drop_last() =~= Seq::<GeoIpEntry>::empty());
}

/// A peer is added as it is.
pub proof fn peer_is_added(x: WireguardPeerConfig)
    ensures
        peer_steps(Seq::<WireguardPeerConfig>::empty().push(x))
            == Seq::<RowStep>::empty().push(RowStep::AddPeer(id_of(x.id@), x)),
{
    reveal_with_fuel(peer_steps, 2);
    assert(Seq::<WireguardPeerConfig>::empty().push(x).drop_last() =~= Seq::<WireguardPeerConfig>::empty());
}

/// An IPsec association is added as it is.
pub proof fn sa_is_added(x: IpsecSaConfig)
    ensures
        sa_steps(Seq::<IpsecSaConfig>::empty().push(x)) == Seq::<RowStep>::empty().push(RowStep::AddSa(id_of(x.id@),
            x)),
{
    reveal_with_fuel(sa_steps, 2);
    assert(Seq::<IpsecSaConfig>::empty().push(x).drop_last() =~= Seq::<IpsecSaConfig>::empty());
}

/// An IPsec tunnel is added as it is.
pub proof fn ipsec_tunnel_is_added(x: IpsecTunnel)
    ensures
        ipsec_tunnel_steps(Seq::<IpsecTunnel>::empty().push(x))
            == Seq::<RowStep>::empty().push(RowStep::AddIpsecTunnel(x)),
{
    reveal_with_fuel(ipsec_tunnel_steps, 2);
    assert(Seq::<IpsecTunnel>::empty().push(x).drop_last() =~= Seq::<IpsecTunnel>::empty());
}

/// A rule for server names is added as it is.
pub proof fn sni_rule_is_added(x: SniRuleConfig)
    ensures
        sni_steps(Seq::<SniRuleConfig>::empty().push(x)) == Seq::<RowStep>::empty().push(RowStep::AddSni(id_of(x.id@),
            x)),
{
    reveal_with_fuel(sni_steps, 2);
    assert(Seq::<SniRuleConfig>::empty().push(x).drop_last() =~= Seq::<SniRuleConfig>::empty());
}

/// A fingerprint is added as it is.
pub proof fn fingerprint_is_added(x: String)
    ensures
        ja3_steps(Seq::<String>::empty().push(x)) == Seq::<RowStep>::empty().push(RowStep::AddJa3(x@)),
{
    reveal_with_fuel(ja3_steps, 2);
    assert(Seq::<String>::empty().push(x).drop_last() =~= Seq::<String>::empty());
}

/// A reservation is added as it is.
pub proof fn reservation_is_added(x: DhcpReservationConfig)
    ensures
        reservation_steps(Seq::<DhcpReservationConfig>::empty().push(x))
            == Seq::<RowStep>::empty().push(RowStep::AddReservation(x)),
{
    reveal_with_fuel(reservation_steps, 2);
    assert(Seq::<DhcpReservationConfig>::empty().push(x).drop_last() =~= Seq::<DhcpReservationConfig>::empty());
}

/// A subnet is added with its relays and its options as they may be stored.
pub proof fn subnet_is_added(x: DhcpSubnetConfig)
    ensures
        subnet_steps(Seq::<DhcpSubnetConfig>::empty().push(x)) == Seq::<RowStep>::empty().push(subnet_step(x)),
{
    reveal_with_fuel(subnet_steps, 2);
    assert(Seq::<DhcpSubnetConfig>::empty().push(x).drop_last() =~= Seq::<DhcpSubnetConfig>::empty());
}

/// A node is added as it is, where it has an address and a known role.
pub proof fn node_is_added(x: ClusterNodeConfig)
    ensures
        is_ip(x.address@) && x.role.valid
            ==> node_steps(Seq::<ClusterNodeConfig>::empty().push(x)) == Seq::<RowStep>::empty().push(
            RowStep::AddNode(id_of(x.id@), x),
        ),
        !is_ip(x.address@) || !x.role.valid
            ==> node_steps(Seq::<ClusterNodeConfig>::empty().push(x)) == Seq::<RowStep>::empty(),
{
    reveal_with_fuel(node_steps, 2);
    assert(Seq::<ClusterNodeConfig>::empty().push(x).drop_last() =~= Seq::<ClusterNodeConfig>::empty());
}

/// The synchronisation of states is set on the interface that the map sends its
/// own to. One without a peer is set too; one with a peer that is no address, or
/// that the map drops, is not.
pub proof fn synchronisation_goes_where_the_map_sends_it(x: PfsyncEntry, m: Map<Seq<char>, Option<String>>,
    t: Seq<char>)
    ensures
        sends(m, x.sync_interface@, t) && (x.sync_peer is None || is_ip(x.sync_peer->0@)) ==> pfsync_steps(Some(x), m)
            == Seq::<RowStep>::empty().push(RowStep::SetPfsync(x, t)),
        drops(m, x.sync_interface@) ==> pfsync_steps(Some(x), m) == Seq::<RowStep>::empty(),
        x.sync_peer is Some && !is_ip(x.sync_peer->0@) ==> pfsync_steps(Some(x), m) == Seq::<RowStep>::empty(),
        pfsync_steps(None, m) == Seq::<RowStep>::empty(),
{
    assert(seq![RowStep::SetPfsync(x, t)] =~= Seq::<RowStep>::empty().push(RowStep::SetPfsync(x, t)));
}

/// The size of the state table is set by the enabled entries for it that hold a
/// number, and by nothing else.
pub proof fn state_table_gets_its_size(x: TuningEntry, n: u64)
    ensures
        x.enabled && x.key@ == "pf.max_states"@ && x.value@ == dec(n as nat) ==> tuning_lives(
            Seq::<TuningEntry>::empty().push(x),
        ) == Seq::<LiveStep>::empty().push(LiveStep::SetMaxStates(n)),
        !x.enabled || x.key@ != "pf.max_states"@ ==> tuning_lives(Seq::<TuningEntry>::empty().push(x)) == Seq::<
            LiveStep,
        >::empty(),
{
    reveal_with_fuel(tuning_lives, 2);
    assert(Seq::<TuningEntry>::empty().push(x).drop_last() =~= Seq::<TuningEntry>::empty());
    crate::number::parsed_of_dec(n as nat, u64::MAX as nat);
}

// ---------------------------------------------------------------------------
// The whole plan
// ---------------------------------------------------------------------------

proof fn lemma_policy_holds(c: FirewallConfig, m: Map<Seq<char>, Option<String>>, s: RowStep)
    ensures
        policy_steps(c, m).contains(s) == {
            ||| clears(base_tables()).contains(s)
            ||| rule_steps(c.rules@, m).contains(s)
            ||| nat_steps(c.nat@, m).contains(s)
            ||| alias_steps(c.aliases@).contains(s)
            ||| route_steps(c.static_routes@, m).contains(s)
            ||| geoip_steps(c.geoip@).contains(s)
            ||| tunnel_steps(c.vpn.wireguard@, m).contains(s)
            ||| sa_steps(c.vpn.ipsec@).contains(s)
            ||| ipsec_tunnel_steps(c.vpn.ipsec_tunnels@).contains(s)
        },
{
    let a = clears(base_tables());
    let b = a + rule_steps(c.rules@, m);
    let d = b + nat_steps(c.nat@, m);
    let e = d + alias_steps(c.aliases@);
    let f = e + route_steps(c.static_routes@, m);
    let g = f + geoip_steps(c.geoip@);
    let h = g + tunnel_steps(c.vpn.wireguard@, m);
    let i = h + sa_steps(c.vpn.ipsec@);
    append_holds(a, rule_steps(c.rules@, m), s);
    append_holds(b, nat_steps(c.nat@, m), s);
    append_holds(d, alias_steps(c.aliases@), s);
    append_holds(e, route_steps(c.static_routes@, m), s);
    append_holds(f, geoip_steps(c.geoip@), s);
    append_holds(g, tunnel_steps(c.vpn.wireguard@, m), s);
    append_holds(h, sa_steps(c.vpn.ipsec@), s);
    append_holds(i, ipsec_tunnel_steps(c.vpn.ipsec_tunnels@), s);
}

proof fn lemma_service_holds(c: FirewallConfig, m: Map<Seq<char>, Option<String>>, s: RowStep)
    ensures
        service_steps(c, m).contains(s) == {
            ||| puts(Table::AuthConfig, auth_rows(c.auth)).contains(s)
            ||| clears(seq![Table::QueueConfigs, Table::RateLimitRules]).contains(s)
            ||| queue_steps(c.queues@, m).contains(s)
            ||| limit_steps(c.rate_limits@, m).contains(s)
            ||| clears(seq![Table::SniRules, Table::Ja3Blocklist]).contains(s)
            ||| sni_steps(c.tls.sni_rules@).contains(s)
            ||| ja3_steps(c.tls.blocked_ja3@).contains(s)
            ||| clears(seq![Table::CarpVips, Table::PfsyncConfig, Table::ClusterNodes]).contains(s)
            ||| vip_steps(c.ha.carp_vips@, m).contains(s)
            ||| pfsync_steps(c.ha.pfsync, m).contains(s)
            ||| node_steps(c.ha.nodes@).contains(s)
        },
{
    let a = puts(Table::AuthConfig, auth_rows(c.auth));
    let c1 = clears(seq![Table::QueueConfigs, Table::RateLimitRules]);
    let c2 = clears(seq![Table::SniRules, Table::Ja3Blocklist]);
    let c3 = clears(seq![Table::CarpVips, Table::PfsyncConfig, Table::ClusterNodes]);
    let b = a + c1;
    let d = b + queue_steps(c.queues@, m);
    let e = d + limit_steps(c.rate_limits@, m);
    let f = e + c2;
    let g = f + sni_steps(c.tls.sni_rules@);
    let h = g + ja3_steps(c.tls.blocked_ja3@);
    let i = h + c3;
    let j = i + vip_steps(c.ha.carp_vips@, m);
    let k = j + pfsync_steps(c.ha.pfsync, m);
    append_holds(a, c1, s);
    append_holds(b, queue_steps(c.queues@, m), s);
    append_holds(d, limit_steps(c.rate_limits@, m), s);
    append_holds(e, c2, s);
    append_holds(f, sni_steps(c.tls.sni_rules@), s);
    append_holds(g, ja3_steps(c.tls.blocked_ja3@), s);
    append_holds(h, c3, s);
    append_holds(i, vip_steps(c.ha.carp_vips@, m), s);
    append_holds(j, pfsync_steps(c.ha.pfsync, m), s);
    append_holds(k, node_steps(c.ha.nodes@), s);
}

proof fn lemma_dhcp_holds(d: DhcpSection, s: RowStep)
    ensures
        dhcp_steps(d).contains(s) == {
            ||| clears(
                seq![
                    Table::DhcpSubnets,
                    Table::DhcpReservations,
                    Table::DhcpConfig,
                    Table::DhcpDdnsConfig,
                    Table::DhcpHaConfig,
                ],
            ).contains(s)
            ||| puts(Table::DhcpConfig, global_rows(d.global@)).contains(s)
            ||| subnet_steps(d.subnets@).contains(s)
            ||| reservation_steps(d.reservations@).contains(s)
            ||| puts(Table::DhcpDdnsConfig, ddns_rows(d.ddns@)).contains(s)
            ||| puts(Table::DhcpHaConfig, ha_rows(d.dhcp_ha@)).contains(s)
        },
{
    let a = clears(
        seq![
            Table::DhcpSubnets,
            Table::DhcpReservations,
            Table::DhcpConfig,
            Table::DhcpDdnsConfig,
            Table::DhcpHaConfig,
        ],
    );
    let b = a + puts(Table::DhcpConfig, global_rows(d.global@));
    let e = b + subnet_steps(d.subnets@);
    let f = e + reservation_steps(d.reservations@);
    let g = f + puts(Table::DhcpDdnsConfig, ddns_rows(d.ddns@));
    append_holds(a, puts(Table::DhcpConfig, global_rows(d.global@)), s);
    append_holds(b, subnet_steps(d.subnets@), s);
    append_holds(e, reservation_steps(d.reservations@), s);
    append_holds(f, puts(Table::DhcpDdnsConfig, ddns_rows(d.ddns@)), s);
    append_holds(g, puts(Table::DhcpHaConfig, ha_rows(d.dhcp_ha@)), s);
}

proof fn lemma_plan_holds(c: FirewallConfig, m: Map<Seq<char>, Option<String>>, s: RowStep)
    ensures
        all_row_steps(c, m).contains(s) == {
            ||| policy_steps(c, m).contains(s)
            ||| service_steps(c, m).contains(s)
            ||| dhcp_steps(c.dhcp).contains(s)
            ||| resolver_steps(c.dns_resolver).contains(s)
        },
{
    let a = policy_steps(c, m);
    let b = a + service_steps(c, m);
    let d = b + dhcp_steps(c.dhcp);
    append_holds(a, service_steps(c, m), s);
    append_holds(b, dhcp_steps(c.dhcp), s);
    append_holds(d, resolver_steps(c.dns_resolver), s);
}

/// Whatever a part of the backup asks for stands in the plan of the whole.
pub proof fn every_part_is_restored(c: FirewallConfig, m: Map<Seq<char>, Option<String>>, s: RowStep)
    ensures
        rule_steps(c.rules@, m).contains(s) ==> all_row_steps(c, m).contains(s),
        nat_steps(c.nat@, m).contains(s) ==> all_row_steps(c, m).contains(s),
        alias_steps(c.aliases@).contains(s) ==> all_row_steps(c, m).contains(s),
        route_steps(c.static_routes@, m).contains(s) ==> all_row_steps(c, m).contains(s),
        geoip_steps(c.geoip@).contains(s) ==> all_row_steps(c, m).contains(s),
        tunnel_steps(c.vpn.wireguard@, m).contains(s) ==> all_row_steps(c, m).contains(s),
        sa_steps(c.vpn.ipsec@).contains(s) ==> all_row_steps(c, m).contains(s),
        ipsec_tunnel_steps(c.vpn.ipsec_tunnels@).contains(s) ==> all_row_steps(c, m).contains(s),
        queue_steps(c.queues@, m).contains(s) ==> all_row_steps(c, m).contains(s),
        limit_steps(c.rate_limits@, m).contains(s) ==> all_row_steps(c, m).contains(s),
        sni_steps(c.tls.sni_rules@).contains(s) ==> all_row_steps(c, m).contains(s),
        ja3_steps(c.tls.blocked_ja3@).contains(s) ==> all_row_steps(c, m).contains(s),
        vip_steps(c.ha.carp_vips@, m).contains(s) ==> all_row_steps(c, m).contains(s),
        pfsync_steps(c.ha.pfsync, m).contains(s) ==> all_row_steps(c, m).contains(s),
        node_steps(c.ha.nodes@).contains(s) ==> all_row_steps(c, m).contains(s),
        subnet_steps(c.dhcp.subnets@).contains(s) ==> all_row_steps(c, m).contains(s),
        reservation_steps(c.dhcp.reservations@).contains(s) ==> all_row_steps(c, m).contains(s),
        puts(Table::DhcpConfig, global_rows(c.dhcp.global@)).contains(s) ==> all_row_steps(c, m).contains(s),
        puts(Table::DhcpDdnsConfig, ddns_rows(c.dhcp.ddns@)).contains(s) ==> all_row_steps(c, m).contains(s),
        puts(Table::DhcpHaConfig, ha_rows(c.dhcp.dhcp_ha@)).contains(s) ==> all_row_steps(c, m).contains(s),
{
    lemma_plan_holds(c, m, s);
    lemma_policy_holds(c, m, s);
    lemma_service_holds(c, m, s);
    lemma_dhcp_holds(c.dhcp, s);
}

/// Every translation of the backup whose interface the map sends to `t` is
/// inserted on `t`.
pub proof fn every_translation_is_inserted(c: FirewallConfig, m: Map<Seq<char>, Option<String>>, i: int, t: Seq<char>)
    requires
        0 <= i < c.nat@.len(),
        sends(m, c.nat@[i].interface@, t),
    ensures
        all_row_steps(c, m).contains(RowStep::AddNat(id_of(c.nat@[i].id@), c.nat@[i], t)),
{
    let v = c.nat@;
    let one = Seq::<NatRuleConfig>::empty().push(v[i]);
    let s = RowStep::AddNat(id_of(c.nat@[i].id@), c.nat@[i], t);
    assert(v =~= v.take(i) + one + v.skip(i + 1));
    translations_in_order(v.take(i), one, m);
    translations_in_order(v.take(i) + one, v.skip(i + 1), m);
    translation_goes_where_the_map_sends_it(v[i], m, t);
    assert(nat_steps(one, m)[0] == s);
    append_holds(nat_steps(v.take(i), m), nat_steps(one, m), s);
    append_holds(nat_steps(v.take(i) + one, m), nat_steps(v.skip(i + 1), m), s);
    every_part_is_restored(c, m, s);
}

/// Every queue of the backup whose interface the map sends to `t` is inserted on
/// `t`.
pub proof fn every_queue_is_inserted(c: FirewallConfig, m: Map<Seq<char>, Option<String>>, i: int, t: Seq<char>)
    requires
        0 <= i < c.queues@.len(),
        sends(m, c.queues@[i].interface@, t),
    ensures
        all_row_steps(c, m).contains(RowStep::AddQueue(id_of(c.queues@[i].id@), c.queues@[i], t)),
{
    let v = c.queues@;
    let one = Seq::<QueueConfigEntry>::empty().push(v[i]);
    let s = RowStep::AddQueue(id_of(c.queues@[i].id@), c.queues@[i], t);
    assert(v =~= v.take(i) + one + v.skip(i + 1));
    queues_in_order(v.take(i), one, m);
    queues_in_order(v.take(i) + one, v.skip(i + 1), m);
    queue_goes_where_the_map_sends_it(v[i], m, t);
    assert(queue_steps(one, m)[0] == s);
    append_holds(queue_steps(v.take(i), m), queue_steps(one, m), s);
    append_holds(queue_steps(v.take(i) + one, m), queue_steps(v.skip(i + 1), m), s);
    every_part_is_restored(c, m, s);
}

/// Every tunnel of the backup whose interface the map sends to `t` is inserted on
/// `t`.
pub proof fn every_tunnel_is_inserted(c: FirewallConfig, m: Map<Seq<char>, Option<String>>, i: int, t: Seq<char>)
    requires
        0 <= i < c.vpn.wireguard@.len(),
        sends(m, c.vpn.wireguard@[i].interface@, t),
    ensures
        all_row_steps(c, m).contains(RowStep::AddTunnel(id_of(c.vpn.wireguard@[i].id@), c.vpn.wireguard@[i], t)),
{
    let v = c.vpn.wireguard@;
    let one = Seq::<WireguardTunnelConfig>::empty().push(v[i]);
    let s = RowStep::AddTunnel(id_of(c.vpn.wireguard@[i].id@), c.vpn.wireguard@[i], t);
    assert(v =~= v.take(i) + one + v.skip(i + 1));
    tunnels_in_order(v.take(i), one, m);
    tunnels_in_order(v.take(i) + one, v.skip(i + 1), m);
    tunnel_goes_where_the_map_sends_it(v[i], m, t);
    assert(tunnel_steps(one, m)[0] == s);
    append_holds(tunnel_steps(v.take(i), m), tunnel_steps(one, m), s);
    append_holds(tunnel_steps(v.take(i) + one, m), tunnel_steps(v.skip(i + 1), m), s);
    every_part_is_restored(c, m, s);
}

/// Every shared address of the backup whose interface the map sends to `t` is
/// inserted on `t`.
pub proof fn every_shared_address_is_inserted(c: FirewallConfig, m: Map<Seq<char>, Option<String>>, i: int,
    t: Seq<char>)
    requires
        0 <= i < c.ha.carp_vips@.len(),
        sends(m, c.ha.carp_vips@[i].interface@, t),
        is_ip(c.ha.carp_vips@[i].virtual_ip@),
    ensures
        all_row_steps(c, m).contains(RowStep::AddVip(id_of(c.ha.carp_vips@[i].id@), c.ha.carp_vips@[i], t)),
{
    let v = c.ha.carp_vips@;
    let one = Seq::<CarpVipConfig>::empty().push(v[i]);
    let s = RowStep::AddVip(id_of(c.ha.carp_vips@[i].id@), c.ha.carp_vips@[i], t);
    assert(v =~= v.take(i) + one + v.skip(i + 1));
    addresses_in_order(v.take(i), one, m);
    addresses_in_order(v.take(i) + one, v.skip(i + 1), m);
    shared_address_goes_where_the_map_sends_it(v[i], m, t);
    assert(vip_steps(one, m)[0] == s);
    append_holds(vip_steps(v.take(i), m), vip_steps(one, m), s);
    append_holds(vip_steps(v.take(i) + one, m), vip_steps(v.skip(i + 1), m), s);
    every_part_is_restored(c, m, s);
}

/// Every rule of the backup whose interface the map sends to `t` is inserted on
/// `t`.
pub proof fn every_rule_is_inserted(c: FirewallConfig, m: Map<Seq<char>, Option<String>>, i: int, t: Seq<char>)
    requires
        0 <= i < c.rules@.len(),
        c.rules@[i].interface is Some,
        sends(m, c.rules@[i].interface->0@, t),
    ensures
        all_row_steps(c, m).contains(RowStep::AddRule(id_of(c.rules@[i].id@), c.rules@[i], Some(t))),
{
    let v = c.rules@;
    let one = Seq::<RuleConfig>::empty().push(v[i]);
    let s = RowStep::AddRule(id_of(c.rules@[i].id@), c.rules@[i], Some(t));
    assert(v =~= v.take(i) + one + v.skip(i + 1));
    rules_in_order(v.take(i), one, m);
    rules_in_order(v.take(i) + one, v.skip(i + 1), m);
    rule_goes_where_the_map_sends_it(v[i], m, t);
    assert(rule_steps(one, m)[0] == s);
    append_holds(rule_steps(v.take(i), m), rule_steps(one, m), s);
    append_holds(rule_steps(v.take(i) + one, m), rule_steps(v.skip(i + 1), m), s);
    every_part_is_restored(c, m, s);
}

/// Every rate limit of the backup whose interface the map sends to `t` is
/// inserted on `t`.
pub proof fn every_limit_is_inserted(c: FirewallConfig, m: Map<Seq<char>, Option<String>>, i: int, t: Seq<char>)
    requires
        0 <= i < c.rate_limits@.len(),
        c.rate_limits@[i].interface is Some,
        sends(m, c.rate_limits@[i].interface->0@, t),
    ensures
        all_row_steps(c, m).contains(RowStep::AddRateLimit(id_of(c.rate_limits@[i].id@), c.rate_limits@[i], Some(t))),
{
    let v = c.rate_limits@;
    let one = Seq::<RateLimitEntry>::empty().push(v[i]);
    let s = RowStep::AddRateLimit(id_of(c.rate_limits@[i].id@), c.rate_limits@[i], Some(t));
    assert(v =~= v.take(i) + one + v.skip(i + 1));
    limits_in_order(v.take(i), one, m);
    limits_in_order(v.take(i) + one, v.skip(i + 1), m);
    limit_goes_where_the_map_sends_it(v[i], m, t);
    assert(limit_steps(one, m)[0] == s);
    append_holds(limit_steps(v.take(i), m), limit_steps(one, m), s);
    append_holds(limit_steps(v.take(i) + one, m), limit_steps(v.skip(i + 1), m), s);
    every_part_is_restored(c, m, s);
}

/// Every static route of the backup whose interface the map sends to `t` is
/// inserted on `t`.
pub proof fn every_route_is_inserted(c: FirewallConfig, m: Map<Seq<char>, Option<String>>, i: int, t: Seq<char>)
    requires
        0 <= i < c.static_routes@.len(),
        c.static_routes@[i].interface is Some,
        sends(m, c.static_routes@[i].interface->0@, t),
    ensures
        all_row_steps(c, m).contains(RowStep::AddRoute(c.static_routes@[i], Some(t))),
{
    let v = c.static_routes@;
    let one = Seq::<StaticRouteConfig>::empty().push(v[i]);
    let s = RowStep::AddRoute(c.static_routes@[i], Some(t));
    assert(v =~= v.take(i) + one + v.skip(i + 1));
    routes_in_order(v.take(i), one, m);
    routes_in_order(v.take(i) + one, v.skip(i + 1), m);
    route_goes_where_the_map_sends_it(v[i], m, t);
    assert(route_steps(one, m)[0] == s);
    append_holds(route_steps(v.take(i), m), route_steps(one, m), s);
    append_holds(route_steps(v.take(i) + one, m), route_steps(v.skip(i + 1), m), s);
    every_part_is_restored(c, m, s);
}

/// Every alias of the backup is inserted.
pub proof fn every_alias_is_inserted(c: FirewallConfig, m: Map<Seq<char>, Option<String>>, i: int)
    requires
        0 <= i < c.aliases@.len(),
    ensures
        all_row_steps(c, m).contains(RowStep::AddAlias(id_of(c.aliases@[i].id@), c.aliases@[i])),
{
    let v = c.aliases@;
    let one = Seq::<AliasConfig>::empty().push(v[i]);
    let s = RowStep::AddAlias(id_of(c.aliases@[i].id@), c.aliases@[i]);
    assert(v =~= v.take(i) + one + v.skip(i + 1));
    aliases_in_order(v.take(i), one);
    aliases_in_order(v.take(i) + one, v.skip(i + 1));
    alias_is_added(v[i]);
    assert(alias_steps(one)[0] == s);
    append_holds(alias_steps(v.take(i)), alias_steps(one), s);
    append_holds(alias_steps(v.take(i) + one), alias_steps(v.skip(i + 1)), s);
    every_part_is_restored(c, m, s);
}

/// Every Geo-IP rule of the backup is inserted.
pub proof fn every_geoip_rule_is_inserted(c: FirewallConfig, m: Map<Seq<char>, Option<String>>, i: int)
    requires
        0 <= i < c.geoip@.len(),
    ensures
        all_row_steps(c, m).contains(RowStep::AddGeoIp(id_of(c.geoip@[i].id@), c.geoip@[i])),
{
    let v = c.geoip@;
    let one = Seq::<GeoIpEntry>::empty().push(v[i]);
    let s = RowStep::AddGeoIp(id_of(c.geoip@[i].id@), c.geoip@[i]);
    assert(v =~= v.take(i) + one + v.skip(i + 1));
    geoip_in_order(v.take(i), one);
    geoip_in_order(v.take(i) + one, v.skip(i + 1));
    geoip_rule_is_added(v[i]);
    assert(geoip_steps(one)[0] == s);
    append_holds(geoip_steps(v.take(i)), geoip_steps(one), s);
    append_holds(geoip_steps(v.take(i) + one), geoip_steps(v.skip(i + 1)), s);
    every_part_is_restored(c, m, s);
}

/// Every IPsec association of the backup is inserted.
pub proof fn every_sa_is_inserted(c: FirewallConfig, m: Map<Seq<char>, Option<String>>, i: int)
    requires
        0 <= i < c.vpn.ipsec@.len(),
    ensures
        all_row_steps(c, m).contains(RowStep::AddSa(id_of(c.vpn.ipsec@[i].id@), c.vpn.ipsec@[i])),
{
    let v = c.vpn.ipsec@;
    let one = Seq::<IpsecSaConfig>::empty().push(v[i]);
    let s = RowStep::AddSa(id_of(c.vpn.ipsec@[i].id@), c.vpn.ipsec@[i]);
    assert(v =~= v.take(i) + one + v.skip(i + 1));
    sas_in_order(v.take(i), one);
    sas_in_order(v.take(i) + one, v.skip(i + 1));
    sa_is_added(v[i]);
    assert(sa_steps(one)[0] == s);
    append_holds(sa_steps(v.take(i)), sa_steps(one), s);
    append_holds(sa_steps(v.take(i) + one), sa_steps(v.skip(i + 1)), s);
    every_part_is_restored(c, m, s);
}

/// Every IPsec tunnel of the backup is inserted.
pub proof fn every_ipsec_tunnel_is_inserted(c: FirewallConfig, m: Map<Seq<char>, Option<String>>, i: int)
    requires
        0 <= i < c.vpn.ipsec_tunnels@.len(),
    ensures
        all_row_steps(c, m).contains(RowStep::AddIpsecTunnel(c.vpn.ipsec_tunnels@[i])),
{
    let v = c.vpn.ipsec_tunnels@;
    let one = Seq::<IpsecTunnel>::empty().push(v[i]);
    let s = RowStep::AddIpsecTunnel(c.vpn.ipsec_tunnels@[i]);
    assert(v =~= v.take(i) + one + v.skip(i + 1));
    ipsec_tunnels_in_order(v.take(i), one);
    ipsec_tunnels_in_order(v.take(i) + one, v.skip(i + 1));
    ipsec_tunnel_is_added(v[i]);
    assert(ipsec_tunnel_steps(one)[0] == s);
    append_holds(ipsec_tunnel_steps(v.take(i)), ipsec_tunnel_steps(one), s);
    append_holds(ipsec_tunnel_steps(v.take(i) + one), ipsec_tunnel_steps(v.skip(i + 1)), s);
    every_part_is_restored(c, m, s);
}

/// Every rule for server names of the backup is inserted.
pub proof fn every_sni_rule_is_inserted(c: FirewallConfig, m: Map<Seq<char>, Option<String>>, i: int)
    requires
        0 <= i < c.tls.sni_rules@.len(),
    ensures
        all_row_steps(c, m).contains(RowStep::AddSni(id_of(c.tls.sni_rules@[i].id@), c.tls.sni_rules@[i])),
{
    let v = c.tls.sni_rules@;
    let one = Seq::<SniRuleConfig>::empty().push(v[i]);
    let s = RowStep::AddSni(id_of(c.tls.sni_rules@[i].id@), c.tls.sni_rules@[i]);
    assert(v =~= v.take(i) + one + v.skip(i + 1));
    sni_rules_in_order(v.take(i), one);
    sni_rules_in_order(v.take(i) + one, v.skip(i + 1));
    sni_rule_is_added(v[i]);
    assert(sni_steps(one)[0] == s);
    append_holds(sni_steps(v.take(i)), sni_steps(one), s);
    append_holds(sni_steps(v.take(i) + one), sni_steps(v.skip(i + 1)), s);
    every_part_is_restored(c, m, s);
}

/// Every fingerprint of the backup is inserted.
pub proof fn every_fingerprint_is_inserted(c: FirewallConfig, m: Map<Seq<char>, Option<String>>, i: int)
    requires
        0 <= i < c.tls.blocked_ja3@.len(),
    ensures
        all_row_steps(c, m).contains(RowStep::AddJa3(c.tls.blocked_ja3@[i]@)),
{
    let v = c.tls.blocked_ja3@;
    let one = Seq::<String>::empty().push(v[i]);
    let s = RowStep::AddJa3(c.tls.blocked_ja3@[i]@);
    assert(v =~= v.take(i) + one + v.skip(i + 1));
    fingerprints_in_order(v.take(i), one);
    fingerprints_in_order(v.take(i) + one, v.skip(i + 1));
    fingerprint_is_added(v[i]);
    assert(ja3_steps(one)[0] == s);
    append_holds(ja3_steps(v.take(i)), ja3_steps(one), s);
    append_holds(ja3_steps(v.take(i) + one), ja3_steps(v.skip(i + 1)), s);
    every_part_is_restored(c, m, s);
}

/// Every reservation of the backup is inserted.
pub proof fn every_reservation_is_inserted(c: FirewallConfig, m: Map<Seq<char>, Option<String>>, i: int)
    requires
        0 <= i < c.dhcp.reservations@.len(),
    ensures
        all_row_steps(c, m).contains(RowStep::AddReservation(c.dhcp.reservations@[i])),
{
    let v = c.dhcp.reservations@;
    let one = Seq::<DhcpReservationConfig>::empty().push(v[i]);
    let s = RowStep::AddReservation(c.dhcp.reservations@[i]);
    assert(v =~= v.take(i) + one + v.skip(i + 1));
    reservations_in_order(v.take(i), one);
    reservations_in_order(v.take(i) + one, v.skip(i + 1));
    reservation_is_added(v[i]);
    assert(reservation_steps(one)[0] == s);
    append_holds(reservation_steps(v.take(i)), reservation_steps(one), s);
    append_holds(reservation_steps(v.take(i) + one), reservation_steps(v.skip(i + 1)), s);
    every_part_is_restored(c, m, s);
}

/// Every subnet of the backup is inserted.
pub proof fn every_subnet_is_inserted(c: FirewallConfig, m: Map<Seq<char>, Option<String>>, i: int)
    requires
        0 <= i < c.dhcp.subnets@.len(),
    ensures
        all_row_steps(c, m).contains(subnet_step(c.dhcp.subnets@[i])),
{
    let v = c.dhcp.subnets@;
    let one = Seq::<DhcpSubnetConfig>::empty().push(v[i]);
    let s = subnet_step(c.dhcp.subnets@[i]);
    assert(v =~= v.take(i) + one + v.skip(i + 1));
    subnets_in_order(v.take(i), one);
    subnets_in_order(v.take(i) + one, v.skip(i + 1));
    subnet_is_added(v[i]);
    assert(subnet_steps(one)[0] == s);
    append_holds(subnet_steps(v.take(i)), subnet_steps(one), s);
    append_holds(subnet_steps(v.take(i) + one), subnet_steps(v.skip(i + 1)), s);
    every_part_is_restored(c, m, s);
}

/// Nothing besides is done: the plan is as long as its parts, one deletion per
/// table that is emptied and the three rows of the authentication.
pub proof fn nothing_else_is_restored(c: FirewallConfig, m: Map<Seq<char>, Option<String>>)
    ensures
        all_row_steps(c, m).len() == 24 + rule_steps(c.rules@, m).len() + nat_steps(c.nat@, m).len() + alias_steps(
            c.aliases@,
        ).len() + route_steps(c.static_routes@, m).len() + geoip_steps(c.geoip@).len() + tunnel_steps(
            c.vpn.wireguard@,
            m,
        ).len() + sa_steps(c.vpn.ipsec@).len() + ipsec_tunnel_steps(c.vpn.ipsec_tunnels@).len() + queue_steps(
            c.queues@,
            m,
        ).len() + limit_steps(c.rate_limits@, m).len() + sni_steps(c.tls.sni_rules@).len() + ja3_steps(
            c.tls.blocked_ja3@,
        ).len() + vip_steps(c.ha.carp_vips@, m).len() + pfsync_steps(c.ha.pfsync, m).len() + node_steps(
            c.ha.nodes@,
        ).len() + subnet_steps(c.dhcp.subnets@).len() + reservation_steps(c.dhcp.reservations@).len() + global_rows(
            c.dhcp.global@,
        ).len() + ddns_rows(c.dhcp.ddns@).len() + ha_rows(c.dhcp.dhcp_ha@).len() + resolver_steps(
            c.dns_resolver,
        ).len(),
{
}

proof fn lemma_cleared(t: Seq<Table>, i: int)
    requires
        0 <= i < t.len(),
    ensures
        clears(t).contains(RowStep::Clear(t[i])),
{
    assert(clears(t)[i] == RowStep::Clear(t[i]));
}

/// Every table that a backup fills is emptied; the rows of the authentication
/// and of the resolver are replaced one by one.
pub proof fn tables_of_a_backup_are_emptied(c: FirewallConfig, m: Map<Seq<char>, Option<String>>, t: Table)
    requires
        t != Table::AuthConfig,
        t != Table::DnsResolverConfig,
    ensures
        all_row_steps(c, m).contains(RowStep::Clear(t)),
{
    let s = RowStep::Clear(t);
    lemma_plan_holds(c, m, s);
    lemma_policy_holds(c, m, s);
    lemma_service_holds(c, m, s);
    lemma_dhcp_holds(c.dhcp, s);
    let b = base_tables();
    let c1 = seq![Table::QueueConfigs, Table::RateLimitRules];
    let c2 = seq![Table::SniRules, Table::Ja3Blocklist];
    let c3 = seq![Table::CarpVips, Table::PfsyncConfig, Table::ClusterNodes];
    let d = seq![
        Table::DhcpSubnets,
        Table::DhcpReservations,
        Table::DhcpConfig,
        Table::DhcpDdnsConfig,
        Table::DhcpHaConfig,
    ];
    match t {
        Table::WgPeers => lemma_cleared(b, 0),
        Table::WgTunnels => lemma_cleared(b, 1),
        Table::IpsecSas => lemma_cleared(b, 2),
        Table::IpsecTunnels => lemma_cleared(b, 3),
        Table::GeoipRules => lemma_cleared(b, 4),
        Table::Rules => lemma_cleared(b, 5),
        Table::NatRules => lemma_cleared(b, 6),
        Table::Aliases => lemma_cleared(b, 7),
        Table::StaticRoutes => lemma_cleared(b, 8),
        Table::QueueConfigs => lemma_cleared(c1, 0),
        Table::RateLimitRules => lemma_cleared(c1, 1),
        Table::SniRules => lemma_cleared(c2, 0),
        Table::Ja3Blocklist => lemma_cleared(c2, 1),
        Table::CarpVips => lemma_cleared(c3, 0),
        Table::PfsyncConfig => lemma_cleared(c3, 1),
        Table::ClusterNodes => lemma_cleared(c3, 2),
        Table::DhcpSubnets => lemma_cleared(d, 0),
        Table::DhcpReservations => lemma_cleared(d, 1),
        Table::DhcpConfig => lemma_cleared(d, 2),
        Table::DhcpDdnsConfig => lemma_cleared(d, 3),
        Table::DhcpHaConfig => lemma_cleared(d, 4),
        _ => {},
    }
}

/// The settings of the authentication are those of the backup.
pub proof fn authentication_is_restored(c: FirewallConfig, m: Map<Seq<char>, Option<String>>)
    ensures
        all_row_steps(c, m).contains(
            RowStep::Put(
                Table::AuthConfig,
                "access_token_expiry_mins"@,
                dec_int(c.auth.access_token_expiry_mins as int),
            ),
        ),
        all_row_steps(c, m).contains(
            RowStep::Put(
                Table::AuthConfig,
                "refresh_token_expiry_days"@,
                dec_int(c.auth.refresh_token_expiry_days as int),
            ),
        ),
        all_row_steps(c, m).contains(
            RowStep::Put(
                Table::AuthConfig,
                "require_totp"@,
                if c.auth.require_totp {
                    "true"@
                } else {
                    "false"@
                },
            ),
        ),
{
    let p = puts(Table::AuthConfig, auth_rows(c.auth));
    assert forall|i: int| 0 <= i < p.len() implies all_row_steps(c, m).contains(#[trigger] p[i]) by {
        lemma_plan_holds(c, m, p[i]);
        lemma_service_holds(c, m, p[i]);
        assert(p.contains(p[i]));
    }
    assert(all_row_steps(c, m).contains(p[0]) && all_row_steps(c, m).contains(p[1])
        && all_row_steps(c, m).contains(p[2]));
}

/// The tables are those that the engines keep their rows in.
pub proof fn tables_have_their_names()
    ensures
        table_name(Table::Rules) == "rules"@,
        table_name(Table::NatRules) == "nat_rules"@,
        table_name(Table::Aliases) == "aliases"@,
        table_name(Table::StaticRoutes) == "static_routes"@,
        table_name(Table::GeoipRules) == "geoip_rules"@,
        table_name(Table::WgTunnels) == "wg_tunnels"@,
        table_name(Table::WgPeers) == "wg_peers"@,
        table_name(Table::IpsecSas) == "ipsec_sas"@,
        table_name(Table::IpsecTunnels) == "ipsec_tunnels"@,
        table_name(Table::AuthConfig) == "auth_config"@,
        table_name(Table::QueueConfigs) == "queue_configs"@,
        table_name(Table::RateLimitRules) == "rate_limit_rules"@,
        table_name(Table::SniRules) == "sni_rules"@,
        table_name(Table::Ja3Blocklist) == "ja3_blocklist"@,
        table_name(Table::CarpVips) == "carp_vips"@,
        table_name(Table::PfsyncConfig) == "pfsync_config"@,
        table_name(Table::ClusterNodes) == "cluster_nodes"@,
        table_name(Table::DhcpSubnets) == "dhcp_subnets"@,
        table_name(Table::DhcpReservations) == "dhcp_reservations"@,
        table_name(Table::DhcpConfig) == "dhcp_config"@,
        table_name(Table::DhcpDdnsConfig) == "dhcp_ddns_config"@,
        table_name(Table::DhcpHaConfig) == "dhcp_ha_config"@,
        table_name(Table::DnsResolverConfig) == "dns_resolver_config"@,
{
}

/// A subnet is stored with those of its relays that are IPv4 addresses of other
/// machines and those of its options that are safe to send.
pub proof fn stored_subnets_are_safe(x: DhcpSubnetConfig, i: int)
    ensures
        subnet_step(x) matches RowStep::AddSubnet(s, relays, options) && s == x && relays == json_of_texts(
            usable_relays(views(x.trusted_relays@)),
        ) && (0 <= i < options.len() ==> is_safe_option(options[i]) && x.options@.contains(options[i])),
        0 <= i < x.options@.len() && is_safe_option(x.options@[i]) ==> (subnet_step(x) matches RowStep::AddSubnet(
            _,
            _,
            options,
        ) && options.contains(x.options@[i])),
{
    broadcast use vstd::seq_lib::group_filter_ensures;

    let pred = |o: DhcpOptionOverrideConfig| is_safe_option(o);
    let kept = safe_options(x.options@);
    if 0 <= i < kept.len() {
        assert(kept.contains(kept[i]));
        x.options@.lemma_filter_contains_rev(pred, kept[i]);
        assert(pred(kept[i]));
    }
    if 0 <= i < x.options@.len() && is_safe_option(x.options@[i]) {
        assert(pred(x.options@[i]));
        assert(kept.contains(x.options@[i]));
    }
}

// ---------------------------------------------------------------------------
// The running system
// ---------------------------------------------------------------------------

/// The running system is brought in line after every restore: IPsec where there
/// are tunnels, the name servers where there are any, and the rest in any case.
/// The rules come last, once everything that they rest on is in place.
pub proof fn running_system_follows(c: FirewallConfig, m: Map<Seq<char>, Option<String>>)
    ensures
        ({
            let l = all_live_steps(c, m);
            let n = l.len();
            &&& n >= 7
            &&& l[n - 5] == LiveStep::RegenerateDhcp
            &&& l[n - 4] == LiveStep::CollectVpnRules
            &&& l[n - 3] == LiveStep::ApplyRules
            &&& l[n - 2] == LiveStep::ApplyNat
            &&& l[n - 1] == LiveStep::ApplyGeoIp
            &&& l.contains(LiveStep::ApplyQueues)
            &&& l.contains(LiveStep::ApplyRateLimits)
            &&& c.vpn.ipsec_tunnels@.len() > 0 ==> l.contains(LiveStep::ApplyIpsec)
            &&& c.system.dns_servers@.len() > 0 ==> l.contains(
                LiveStep::WriteResolvConf(resolv_conf(views(c.system.dns_servers@))),
            )
            &&& n == 7 + route_lives(c.static_routes@,
                m).len() + tuning_lives(c.tuning@).len() + (if c.vpn.ipsec_tunnels@.len() > 0 {
                1int
            } else {
                0
            }) + (if c.system.dns_servers@.len() > 0 {
                1int
            } else {
                0
            })
        }),
        forall|i: int|
            0 <= i < route_lives(c.static_routes@, m).len() ==> all_live_steps(c, m)[i] == #[trigger] route_lives(
                c.static_routes@,
                m,
            )[i],
        forall|i: int|
            0 <= i < tuning_lives(c.tuning@).len()
                ==> all_live_steps(c, m).contains(#[trigger] tuning_lives(c.tuning@)[i]),
{
    let l = all_live_steps(c, m);
    let t = tuning_lives(c.tuning@);
    let n = l.len() as int;
    assert(l[n - 7 - t.len()] == LiveStep::ApplyQueues);
    assert(l[n - 6 - t.len()] == LiveStep::ApplyRateLimits);
    assert forall|i: int| 0 <= i < t.len() implies l.contains(#[trigger] t[i]) by {
        assert(l[n - 5 - t.len() + i] == t[i]);
    }
    let r = route_lives(c.static_routes@, m).len() as int;
    if c.vpn.ipsec_tunnels@.len() > 0 {
        assert(l[r] == LiveStep::ApplyIpsec);
        if c.system.dns_servers@.len() > 0 {
            assert(l[r + 1] == LiveStep::WriteResolvConf(resolv_conf(views(c.system.dns_servers@))));
        }
    } else if c.system.dns_servers@.len() > 0 {
        assert(l[r] == LiveStep::WriteResolvConf(resolv_conf(views(c.system.dns_servers@))));
    }
}

/// Each name server gets a line of its own, in order.
pub proof fn name_servers_get_their_lines(servers: Seq<Seq<char>>)
    requires
        servers.len() > 0,
        forall|i: int| 0 <= i < servers.len() ==> !(#[trigger] servers[i]).contains('\n'),
    ensures
        split(resolv_conf(servers), '\n').len() == servers.len(),
        forall|i: int|
            0 <= i < servers.len() ==> #[trigger] split(resolv_conf(servers), '\n')[i] == "nameserver "@ + servers[i],
{
    let l = wrapped("nameserver "@, servers, Seq::empty());
    reveal_strlit("nameserver ");
    reveal_strlit("\n");
    assert("\n"@ =~= seq!['\n']);
    assert forall|i: int| 0 <= i < l.len() implies !(#[trigger] l[i]).contains('\n')
        && l[i] == "nameserver "@ + servers[i] by {
        assert(l[i] =~= "nameserver "@ + servers[i]);
        assert forall|k: int| 0 <= k < l[i].len() implies l[i][k] != '\n' by {
            if k >= 11 {
                assert(l[i][k] == servers[i][k - 11]);
                assert(!servers[i].contains('\n'));
            }
        }
    }
    split_of_join(l, '\n');
}

/// A restore fails where the rules, the translations, the queues or the Geo-IP
/// rules cannot be loaded. What is brought in line later anyway does not make
/// it fail.
pub proof fn what_a_restore_rests_on(r: StaticRouteConfig, i: Option<Seq<char>>, t: Seq<char>, n: u64)
    ensures
        is_required(LiveStep::ApplyRules),
        is_required(LiveStep::ApplyNat),
        is_required(LiveStep::ApplyGeoIp),
        is_required(LiveStep::CollectVpnRules),
        is_required(LiveStep::ApplyQueues),
        is_required(LiveStep::ApplyRateLimits),
        !is_required(LiveStep::ApplyRoute(r, i)),
        !is_required(LiveStep::ApplyIpsec),
        !is_required(LiveStep::WriteResolvConf(t)),
        !is_required(LiveStep::SetMaxStates(n)),
        !is_required(LiveStep::RegenerateDhcp),
{
}

// ---------------------------------------------------------------------------
// Reverting
// ---------------------------------------------------------------------------

/// A revert puts the rules, the translations, the aliases and the routes of the
/// snapshot back, on the interfaces that they were on, after it has emptied
/// their tables, and does nothing else. Then it loads them.
pub proof fn revert_puts_the_snapshot_back(c: FirewallConfig)
    ensures
        ({
            let m = Map::<Seq<char>, Option<String>>::empty();
            let a = rule_steps(c.rules@, m);
            let b = nat_steps(c.nat@, m);
            let d = alias_steps(c.aliases@);
            let e = route_steps(c.static_routes@, m);
            let all = revert_row_steps(c);
            let l = revert_live_steps(c);
            let r = route_lives(c.static_routes@, m);
            &&& all.len() == 4 + a.len() + b.len() + d.len() + e.len()
            &&& all[0] == RowStep::Clear(Table::Rules)
            &&& all[1] == RowStep::Clear(Table::NatRules)
            &&& all[2] == RowStep::Clear(Table::Aliases)
            &&& all[3] == RowStep::Clear(Table::StaticRoutes)
            &&& forall|i: int| 0 <= i < a.len() ==> all[4 + i] == #[trigger] a[i]
            &&& forall|i: int| 0 <= i < b.len() ==> all[4 + a.len() + i] == #[trigger] b[i]
            &&& forall|i: int| 0 <= i < d.len() ==> all[4 + a.len() + b.len() + i] == #[trigger] d[i]
            &&& forall|i: int| 0 <= i < e.len() ==> all[4 + a.len() + b.len() + d.len() + i] == #[trigger] e[i]
            &&& l.len() == r.len() + 3
            &&& forall|i: int| 0 <= i < r.len() ==> l[i] == #[trigger] r[i]
            &&& l[l.len() - 3] == LiveStep::CollectVpnRules
            &&& l[l.len() - 2] == LiveStep::ApplyRules
            &&& l[l.len() - 1] == LiveStep::ApplyNat
        }),
{
}

// ---------------------------------------------------------------------------
// What is refused
// ---------------------------------------------------------------------------

/// The map does not drop the optional interface.
pub open spec fn stays(m: Map<Seq<char>, Option<String>>, name: Option<String>) -> bool {
    name is None || !drops(m, name->0@)
}

/// An address that is given but cannot be read.
pub open spec fn is_unreadable(a: Option<crate::backup::model::ConfigAddress>) -> bool {
    a is Some && a->0.parsed is None
}

/// A backup with an entry that cannot be stored as it is meant is refused as a
/// whole, unless the map drops that entry.
pub proof fn unreadable_entries_are_refused(c: FirewallConfig, m: Map<Seq<char>, Option<String>>, i: int, j: int)
    ensures
        0 <= i < c.rules@.len() && stays(m, c.rules@[i].interface) && (is_unreadable(c.rules@[i].src_addr)
            || is_unreadable(
            c.rules@[i].dst_addr,
        ) || c.rules@[i].priority > 10000) ==> !restorable(c, m),
        0 <= i < c.nat@.len() && !drops(m, c.nat@[i].interface@) && (is_unreadable(c.nat@[i].src_addr) || is_unreadable(
            c.nat@[i].dst_addr,
        ) || c.nat@[i].redirect_addr.parsed is None) ==> !restorable(c, m),
        0 <= i < c.aliases@.len() && !c.aliases@[i].alias_type.valid ==> !restorable(c, m),
        0 <= i < c.static_routes@.len() && (!is_route_target(c.static_routes@[i].destination@) || !is_route_target(
            c.static_routes@[i].gateway@,
        )) ==> !restorable(c, m),
        0 <= i < c.geoip@.len() && !c.geoip@[i].country.valid ==> !restorable(c, m),
        0 <= i < c.vpn.ipsec@.len() && (c.vpn.ipsec@[i].src_addr.parsed is None
            || c.vpn.ipsec@[i].dst_addr.parsed is None)
            ==> !restorable(c, m),
        0 <= i < c.vpn.wireguard@.len() && !drops(m, c.vpn.wireguard@[i].interface@)
            && (c.vpn.wireguard@[i].address.parsed is None
            || is_unreadable(c.vpn.wireguard@[i].address6)) ==> !restorable(c, m),
        0 <= i < c.vpn.wireguard@.len() && !drops(m, c.vpn.wireguard@[i].interface@)
            && 0 <= j < c.vpn.wireguard@[i].peers@.len()
            && !addresses_parse(c.vpn.wireguard@[i].peers@[j].allowed_ips@) ==> !restorable(c, m),
        0 <= i < j < c.vpn.wireguard@.len() && !drops(m, c.vpn.wireguard@[i].interface@) && !drops(
            m,
            c.vpn.wireguard@[j].interface@,
        ) && c.vpn.wireguard@[i].listen_port == c.vpn.wireguard@[j].listen_port ==> !restorable(c, m),
{
    if 0 <= i < c.vpn.wireguard@.len() && 0 <= j < c.vpn.wireguard@[i].peers@.len()
        && peers_parse(c.vpn.wireguard@[i].peers@) {
        assert(addresses_parse(c.vpn.wireguard@[i].peers@[j].allowed_ips@));
    }
    if ports_distinct(c.vpn.wireguard@, m) {
        assert(!ports_clash(c.vpn.wireguard@, m, i, j));
    }
    if restorable(c, m) {
        if 0 <= i < c.vpn.wireguard@.len() {
            assert(tunnel_restorable(c.vpn.wireguard@[i], m));
        }
        if 0 <= i < c.rules@.len() {
            assert(rule_restorable(c.rules@[i], m));
        }
        if 0 <= i < c.nat@.len() {
            assert(nat_restorable(c.nat@[i], m));
        }
        if 0 <= i < c.aliases@.len() {
            assert(alias_restorable(c.aliases@[i], m));
        }
        if 0 <= i < c.static_routes@.len() {
            assert(route_restorable(c.static_routes@[i], m));
        }
        if 0 <= i < c.geoip@.len() {
            assert(geoip_restorable(c.geoip@[i], m));
        }
        if 0 <= i < c.vpn.ipsec@.len() {
            assert(sa_restorable(c.vpn.ipsec@[i], m));
        }
    }
}

/// A backup whose entries can all be read is not refused: what the map drops
/// does not matter, nor does a port that two tunnels share of which one is
/// dropped.
pub proof fn readable_backups_are_restored(c: FirewallConfig, m: Map<Seq<char>, Option<String>>)
    requires
        forall|i: int|
            0 <= i < c.rules@.len() ==> !stays(m, (#[trigger] c.rules@[i]).interface)
                || (!is_unreadable(c.rules@[i].src_addr)
                && !is_unreadable(c.rules@[i].dst_addr) && c.rules@[i].priority <= 10000),
        forall|i: int|
            0 <= i < c.nat@.len() ==> drops(m, (#[trigger] c.nat@[i]).interface@) || (!is_unreadable(c.nat@[i].src_addr)
                && !is_unreadable(c.nat@[i].dst_addr) && c.nat@[i].redirect_addr.parsed is Some),
        forall|i: int| 0 <= i < c.aliases@.len() ==> (#[trigger] c.aliases@[i]).alias_type.valid,
        forall|i: int|
            0 <= i < c.static_routes@.len() ==> is_route_target((#[trigger] c.static_routes@[i]).destination@)
                && is_route_target(c.static_routes@[i].gateway@),
        forall|i: int| 0 <= i < c.geoip@.len() ==> (#[trigger] c.geoip@[i]).country.valid,
        forall|i: int|
            0 <= i < c.vpn.ipsec@.len() ==> (#[trigger] c.vpn.ipsec@[i]).src_addr.parsed is Some
                && c.vpn.ipsec@[i].dst_addr.parsed is Some,
        forall|i: int|
            0 <= i < c.vpn.wireguard@.len() ==> drops(m, (#[trigger] c.vpn.wireguard@[i]).interface@) || (
            c.vpn.wireguard@[i].address.parsed is Some && !is_unreadable(c.vpn.wireguard@[i].address6) && peers_parse(
                c.vpn.wireguard@[i].peers@,
            )),
        forall|i: int, j: int|
            0 <= i < j < c.vpn.wireguard@.len() ==> drops(m, (#[trigger] c.vpn.wireguard@[i]).interface@) || drops(
                m,
                (#[trigger] c.vpn.wireguard@[j]).interface@,
            ) || c.vpn.wireguard@[i].listen_port != c.vpn.wireguard@[j].listen_port,
    ensures
        restorable(c, m),
{
    assert forall|i: int, j: int| !#[trigger] ports_clash(c.vpn.wireguard@, m, i, j) by {
        if 0 <= i < j < c.vpn.wireguard@.len() {
            let a = c.vpn.wireguard@[i];
            let b = c.vpn.wireguard@[j];
        }
    }
}

/// A snapshot whose rules, translations, aliases and routes can be read can be
/// put back, whatever else it holds.
pub proof fn readable_snapshots_are_put_back(c: FirewallConfig, other: FirewallConfig)
    requires
        restorable(c, Map::<Seq<char>, Option<String>>::empty()),
        other.rules == c.rules,
        other.nat == c.nat,
        other.aliases == c.aliases,
        other.static_routes == c.static_routes,
    ensures
        revertible(other),
{
}

/// A snapshot with a rule, a translation, an alias or a route that cannot be
/// read is refused.
pub proof fn unreadable_snapshots_are_refused(c: FirewallConfig, i: int)
    ensures
        0 <= i < c.rules@.len() && (is_unreadable(c.rules@[i].src_addr) || is_unreadable(c.rules@[i].dst_addr)
            || c.rules@[i].priority > 10000) ==> !revertible(c),
        0 <= i < c.nat@.len() && (is_unreadable(c.nat@[i].src_addr) || is_unreadable(c.nat@[i].dst_addr)
            || c.nat@[i].redirect_addr.parsed is None) ==> !revertible(c),
        0 <= i < c.aliases@.len() && !c.aliases@[i].alias_type.valid ==> !revertible(c),
        0 <= i < c.static_routes@.len() && (!is_route_target(c.static_routes@[i].destination@) || !is_route_target(
            c.static_routes@[i].gateway@,
        )) ==> !revertible(c),
{
    let m = Map::<Seq<char>, Option<String>>::empty();
    if revertible(c) {
        if 0 <= i < c.rules@.len() {
            assert(rule_restorable(c.rules@[i], m));
        }
        if 0 <= i < c.nat@.len() {
            assert(nat_restorable(c.nat@[i], m));
        }
        if 0 <= i < c.aliases@.len() {
            assert(alias_restorable(c.aliases@[i], m));
        }
        if 0 <= i < c.static_routes@.len() {
            assert(route_restorable(c.static_routes@[i], m));
        }
    }
}

// ---------------------------------------------------------------------------
// What the engines get
// ---------------------------------------------------------------------------

/// The range of ports is the one that is given: from the first to the last, a
/// single port where there is no last one, none where there is no first one.
pub open spec fn spans(r: Option<PortRange>, first: Option<u16>, last: Option<u16>) -> bool {
    match r {
        Some(p) => first == Some(p.start) && (last == Some(p.end) || (last is None && p.end == p.start)),
        None => first is None,
    }
}

/// A rule of the engine is the rule of the backup, in each of its parts: what
/// is said of the source stays with the source, and of the target with the
/// target.
pub proof fn restored_rule_is_the_rule(r: Rule, rc: RuleConfig)
    requires
        is_rule_of(r, rc),
    ensures
        r.priority == rc.priority,
        r.action == rc.action,
        r.direction == rc.direction,
        r.ip_version == rc.ip_version,
        r.interface == rc.interface,
        r.protocol == rc.protocol,
        rc.src_addr is None ==> r.rule_match.src_addr == Address::Any,
        rc.src_addr is Some ==> rc.src_addr->0.parsed == Some(r.rule_match.src_addr),
        rc.dst_addr is None ==> r.rule_match.dst_addr == Address::Any,
        rc.dst_addr is Some ==> rc.dst_addr->0.parsed == Some(r.rule_match.dst_addr),
        spans(r.rule_match.src_port, rc.src_port_start, rc.src_port_end),
        spans(r.rule_match.dst_port, rc.dst_port_start, rc.dst_port_end),
        r.src_invert == rc.src_invert,
        r.dst_invert == rc.dst_invert,
        r.log == rc.log,
        r.quick == rc.quick,
        r.label == rc.label,
        r.gateway == rc.gateway,
        r.state_tracking == rc.state_tracking,
        r.status == rc.status,
        r.schedule_id == rc.schedule_id,
        r.description is None,
        r.id@ == id_of(rc.id@),
{
}

/// A translation of the engine is the translation of the backup.
pub proof fn restored_translation_is_the_translation(r: NatRule, nc: NatRuleConfig)
    requires
        is_nat_of(r, nc),
    ensures
        r.nat_type == nc.nat_type,
        r.interface == nc.interface,
        r.protocol == nc.protocol,
        nc.src_addr is None ==> r.src_addr == Address::Any,
        nc.src_addr is Some ==> nc.src_addr->0.parsed == Some(r.src_addr),
        nc.dst_addr is None ==> r.dst_addr == Address::Any,
        nc.dst_addr is Some ==> nc.dst_addr->0.parsed == Some(r.dst_addr),
        nc.redirect_addr.parsed == Some(r.redirect_addr),
        spans(r.src_port, nc.src_port_start, nc.src_port_end),
        spans(r.dst_port, nc.dst_port_start, nc.dst_port_end),
        spans(r.redirect_port, nc.redirect_port_start, nc.redirect_port_end),
        r.label == nc.label,
        r.status == nc.status,
        r.id@ == id_of(nc.id@),
{
}

/// So it is with queues, limits, rules for server names, shared addresses and
/// nodes.
pub proof fn restored_entries_are_the_entries(
    q: QueueConfig,
    qc: QueueConfigEntry,
    l: RateLimitRule,
    lc: RateLimitEntry,
    s: SniRule,
    sc: SniRuleConfig,
    v: CarpVip,
    vc: CarpVipConfig,
    n: ClusterNode,
    nc: ClusterNodeConfig,
)
    ensures
        is_queue_of(q, qc) <==> q.id@ == id_of(qc.id@) && q.interface == qc.interface && q.queue_type == qc.queue_type
            && q.bandwidth_value == qc.bandwidth_value && q.bandwidth_unit == qc.bandwidth_unit && q.name == qc.name
            && q.traffic_class == qc.traffic_class && q.bandwidth_pct == qc.bandwidth_pct && q.default == qc.default
            && q.status == qc.status,
        is_limit_of(l, lc) <==> l.id@ == id_of(lc.id@) && l.name == lc.name && l.interface == lc.interface && l.protocol
            == lc.protocol && l.src_addr == Address::Any && l.dst_addr == Address::Any && spans(
            l.dst_port,
            lc.dst_port_start,
            lc.dst_port_end,
        ) && l.max_connections == lc.max_connections && l.window_secs == lc.window_secs && l.overload_table
            == lc.overload_table && l.flush_states == lc.flush_states && l.status == lc.status,
        is_sni_of(s, sc) <==> s.id@ == id_of(sc.id@) && s.pattern == sc.pattern && s.action == sc.action && s.label
            == sc.label,
        is_vip_of(v, vc) <==> v.id@ == id_of(vc.id@) && v.vhid == vc.vhid && v.virtual_ip == vc.virtual_ip && v.prefix
            == vc.prefix && v.interface == vc.interface && v.password == vc.password,
        is_node_of(n, nc) <==> n.id@ == id_of(nc.id@) && n.name == nc.name && n.address == nc.address && n.role
            == nc.role.text,
{
}

/// What an engine gets stands on the interface that the entry was sent to.
pub proof fn entities_stand_where_they_were_sent(e: Entity, s: RowStep)
    requires
        is_entity_of(e, s),
    ensures
        s matches RowStep::AddRule(_, _, i) ==> (e matches Entity::Rule(r) && option_view(r.interface) == i),
        s matches RowStep::AddNat(_, _, i) ==> (e matches Entity::Translation(n) && n.interface@ == i),
        s matches RowStep::AddQueue(_, _, i) ==> (e matches Entity::Queue(q) && q.interface@ == i),
        s matches RowStep::AddRateLimit(_, _, i) ==> (e matches Entity::Limit(l) && option_view(l.interface) == i),
        s matches RowStep::AddVip(_, _, i) ==> (e matches Entity::Vip(v) && v.interface@ == i),
        s matches RowStep::SetPfsync(p, i) ==> (e matches Entity::Pfsync(c) && c.sync_interface@ == i && c.sync_peer
            == p.sync_peer && c.defer == p.defer),
{
}

/// A plan that restores a backup inserts each translation on the interface that the map sends
/// its own to.
pub proof fn restored_translations_stand_on_their_interfaces(c: &FirewallConfig, m: &InterfaceMap,
    r: Result<RestorePlan<'_>, Status>, i: int, t: Seq<char>)
    requires
        call_ensures(apply_firewall_config, (c, m), r),
    ensures
        r is Ok <==> restorable(*c, m@),
        r matches Err(e) ==> e == Status::BadRequest,
        r matches Ok(p) ==> (0 <= i < c.nat@.len() && sends(m@, c.nat@[i].interface@, t)
            ==> row_values(p.rows@).contains(RowStep::AddNat(id_of(c.nat@[i].id@), c.nat@[i], t))),
{
    if r is Ok && 0 <= i < c.nat@.len() && sends(m@, c.nat@[i].interface@, t) {
        every_translation_is_inserted(*c, m@, i, t);
    }
}

} // verus!
