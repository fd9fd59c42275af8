//! What holds of every restore.

use vstd::prelude::*;

use crate::backup::convert::pfsync_parses;
use crate::backup::dhcp::{DhcpReservationConfig, DhcpSection, DhcpSubnetConfig};
use crate::backup::dhcp_settings::{ddns_rows, global_rows, ha_rows};
use crate::backup::entities::converts;
use crate::backup::interfaces::{lost_limits, lost_nat, lost_queues, lost_rules, lost_tunnels, lost_vips};
use crate::backup::model::{
    AliasConfig, CarpVipConfig, ClusterNodeConfig, FirewallConfig, GeoIpEntry, IpsecSaConfig, IpsecTunnel,
    NatRuleConfig, QueueConfigEntry, RateLimitEntry, RuleConfig, SniRuleConfig, StaticRouteConfig,
    WireguardPeerConfig, WireguardTunnelConfig,
};
use crate::backup::plan::{
    alias_steps, all_row_steps, auth_rows, base_tables, clears, dhcp_steps, geoip_steps, ipsec_tunnel_steps,
    ja3_steps, limit_steps, nat_steps, node_steps, peer_steps, pfsync_steps, policy_steps, puts, queue_steps,
    reservation_steps, resolver_steps, revert_live_steps, revert_row_steps, revert_tables, route_lives, route_steps,
    rule_steps, sa_steps, service_steps, sni_steps, subnet_steps, tunnel_steps, vip_steps, LiveStep, RowStep, Table,
};
use crate::backup::validate::{nat_restorable, nat_rules_restorable, restorable, rule_restorable, rules_restorable};
use crate::dns_resolver::config::{config_of_rows, config_round_trip, config_rows, is_storable, ResolverView};
use crate::identifiers::id_of;
use crate::kv::option_view;
use crate::net::is_ip;

verus! {

/// The table that a change is made to.
pub open spec fn target(s: RowStep) -> Table {
    match s {
        RowStep::Clear(t) => t,
        RowStep::Put(t, _, _) => t,
        RowStep::AddRule(_, _, _) => Table::Rules,
        RowStep::AddNat(_, _, _) => Table::NatRules,
        RowStep::AddAlias(_, _) => Table::Aliases,
        RowStep::AddRoute(_, _) => Table::StaticRoutes,
        RowStep::AddGeoIp(_, _) => Table::GeoipRules,
        RowStep::AddTunnel(_, _, _) => Table::WgTunnels,
        RowStep::AddPeer(_, _) => Table::WgPeers,
        RowStep::AddSa(_, _) => Table::IpsecSas,
        RowStep::AddIpsecTunnel(_) => Table::IpsecTunnels,
        RowStep::AddQueue(_, _, _) => Table::QueueConfigs,
        RowStep::AddRateLimit(_, _, _) => Table::RateLimitRules,
        RowStep::AddSni(_, _) => Table::SniRules,
        RowStep::AddJa3(_) => Table::Ja3Blocklist,
        RowStep::AddVip(_, _, _) => Table::CarpVips,
        RowStep::SetPfsync(_, _) => Table::PfsyncConfig,
        RowStep::AddNode(_, _) => Table::ClusterNodes,
        RowStep::AddSubnet(_, _, _) => Table::DhcpSubnets,
        RowStep::AddReservation(_) => Table::DhcpReservations,
    }
}

/// The tables whose rows are replaced one by one and never emptied.
pub open spec fn is_kept_table(t: Table) -> bool {
    t == Table::AuthConfig || t == Table::DnsResolverConfig
}

/// A change that inserts into one of two tables.
pub open spec fn fills(s: RowStep, a: Table, b: Table) -> bool {
    !(s is Clear) && (target(s) == a || target(s) == b)
}

/// Changes that only insert into one of two tables.
pub open spec fn fills_only(s: Seq<RowStep>, a: Table, b: Table) -> bool {
    forall|i: int| 0 <= i < s.len() ==> fills(#[trigger] s[i], a, b)
}

/// The table is emptied by one of the changes.
pub open spec fn is_cleared(s: Seq<RowStep>, t: Table) -> bool {
    exists|j: int| 0 <= j < s.len() && #[trigger] s[j] == RowStep::Clear(t)
}

/// The change at `i` goes to a table that is emptied before, or is never
/// emptied, or it empties the table itself.
pub open spec fn in_order_at(s: Seq<RowStep>, i: int) -> bool {
    s[i] is Clear || is_kept_table(target(s[i])) || is_cleared(s.take(i), target(s[i]))
}

/// Every table is emptied before it is filled.
pub open spec fn is_orderly(s: Seq<RowStep>) -> bool {
    forall|i: int| 0 <= i < s.len() ==> #[trigger] in_order_at(s, i)
}

proof fn lemma_cleared_grows(a: Seq<RowStep>, b: Seq<RowStep>, t: Table)
    requires
        is_cleared(a, t),
    ensures
        is_cleared(a + b, t),
{
    let j = choose|j: int| 0 <= j < a.len() && #[trigger] a[j] == RowStep::Clear(t);
    assert((a + b)[j] == RowStep::Clear(t));
}

proof fn lemma_order_grows(a: Seq<RowStep>, b: Seq<RowStep>, x: Table, y: Table)
    requires
        is_orderly(a),
        fills_only(b, x, y),
        is_kept_table(x) || is_cleared(a, x),
        is_kept_table(y) || is_cleared(a, y),
    ensures
        is_orderly(a + b),
        forall|t: Table| is_cleared(a, t) ==> #[trigger] is_cleared(a + b, t),
{
    assert forall|t: Table| is_cleared(a, t) implies #[trigger] is_cleared(a + b, t) by {
        lemma_cleared_grows(a, b, t);
    }
    let s = a + b;
    assert forall|i: int| 0 <= i < s.len() implies #[trigger] in_order_at(s, i) by {
        if i < a.len() {
            assert(in_order_at(a, i));
            assert(s.take(i) =~= a.take(i));
        } else {
            assert(fills(b[i - a.len()], x, y));
            let t = target(s[i]);
            if !is_kept_table(t) {
                assert(is_cleared(a, t));
                assert(s.take(i) =~= a + b.take(i - a.len()));
                lemma_cleared_grows(a, b.take(i - a.len()), t);
            }
        }
    }
}

proof fn lemma_clears_grow(a: Seq<RowStep>, ts: Seq<Table>)
    requires
        is_orderly(a),
    ensures
        is_orderly(a + clears(ts)),
        forall|t: Table| is_cleared(a, t) ==> #[trigger] is_cleared(a + clears(ts), t),
        forall|i: int| 0 <= i < ts.len() ==> is_cleared(a + clears(ts), #[trigger] ts[i]),
{
    let b = clears(ts);
    let s = a + b;
    assert forall|t: Table| is_cleared(a, t) implies #[trigger] is_cleared(s, t) by {
        lemma_cleared_grows(a, b, t);
    }
    assert forall|i: int| 0 <= i < ts.len() implies is_cleared(s, #[trigger] ts[i]) by {
        assert(s[a.len() + i] == RowStep::Clear(ts[i]));
    }
    assert forall|i: int| 0 <= i < s.len() implies #[trigger] in_order_at(s, i) by {
        if i < a.len() {
            assert(in_order_at(a, i));
            assert(s.take(i) =~= a.take(i));
        } else {
            assert(s[i] == b[i - a.len()]);
        }
    }
}

proof fn lemma_rule_target(v: Seq<RuleConfig>, m: Map<Seq<char>, Option<String>>)
    ensures
        fills_only(rule_steps(v, m), Table::Rules, Table::Rules),
    decreases v.len(),
{
    if v.len() > 0 {
        lemma_rule_target(v.drop_last(), m);
        let init = rule_steps(v.drop_last(), m);
        assert forall|i: int| 0 <= i < rule_steps(v, m).len() implies fills(
            #[trigger] rule_steps(v, m)[i],
            Table::Rules,
            Table::Rules,
        ) by {
            if i < init.len() {
                assert(fills(init[i], Table::Rules, Table::Rules));
            }
        }
    }
}

proof fn lemma_nat_target(v: Seq<NatRuleConfig>, m: Map<Seq<char>, Option<String>>)
    ensures
        fills_only(nat_steps(v, m), Table::NatRules, Table::NatRules),
    decreases v.len(),
{
    if v.len() > 0 {
        lemma_nat_target(v.drop_last(), m);
        let init = nat_steps(v.drop_last(), m);
        assert forall|i: int| 0 <= i < nat_steps(v, m).len() implies fills(
            #[trigger] nat_steps(v, m)[i],
            Table::NatRules,
            Table::NatRules,
        ) by {
            if i < init.len() {
                assert(fills(init[i], Table::NatRules, Table::NatRules));
            }
        }
    }
}

proof fn lemma_alias_target(v: Seq<AliasConfig>)
    ensures
        fills_only(alias_steps(v), Table::Aliases, Table::Aliases),
    decreases v.len(),
{
    if v.len() > 0 {
        lemma_alias_target(v.drop_last());
        let init = alias_steps(v.drop_last());
        assert forall|i: int| 0 <= i < alias_steps(v).len() implies fills(
            #[trigger] alias_steps(v)[i],
            Table::Aliases,
            Table::Aliases,
        ) by {
            if i < init.len() {
                assert(fills(init[i], Table::Aliases, Table::Aliases));
            }
        }
    }
}

proof fn lemma_route_target(v: Seq<StaticRouteConfig>, m: Map<Seq<char>, Option<String>>)
    ensures
        fills_only(route_steps(v, m), Table::StaticRoutes, Table::StaticRoutes),
    decreases v.len(),
{
    if v.len() > 0 {
        lemma_route_target(v.drop_last(), m);
        let init = route_steps(v.drop_last(), m);
        assert forall|i: int| 0 <= i < route_steps(v, m).len() implies fills(
            #[trigger] route_steps(v, m)[i],
            Table::StaticRoutes,
            Table::StaticRoutes,
        ) by {
            if i < init.len() {
                assert(fills(init[i], Table::StaticRoutes, Table::StaticRoutes));
            }
        }
    }
}

proof fn lemma_geoip_target(v: Seq<GeoIpEntry>)
    ensures
        fills_only(geoip_steps(v), Table::GeoipRules, Table::GeoipRules),
    decreases v.len(),
{
    if v.len() > 0 {
        lemma_geoip_target(v.drop_last());
        let init = geoip_steps(v.drop_last());
        assert forall|i: int| 0 <= i < geoip_steps(v).len() implies fills(
            #[trigger] geoip_steps(v)[i],
            Table::GeoipRules,
            Table::GeoipRules,
        ) by {
            if i < init.len() {
                assert(fills(init[i], Table::GeoipRules, Table::GeoipRules));
            }
        }
    }
}

proof fn lemma_peer_target(v: Seq<WireguardPeerConfig>)
    ensures
        fills_only(peer_steps(v), Table::WgPeers, Table::WgPeers),
    decreases v.len(),
{
    if v.len() > 0 {
        lemma_peer_target(v.drop_last());
        let init = peer_steps(v.drop_last());
        assert forall|i: int| 0 <= i < peer_steps(v).len() implies fills(
            #[trigger] peer_steps(v)[i],
            Table::WgPeers,
            Table::WgPeers,
        ) by {
            if i < init.len() {
                assert(fills(init[i], Table::WgPeers, Table::WgPeers));
            }
        }
    }
}

proof fn lemma_tunnel_target(v: Seq<WireguardTunnelConfig>, m: Map<Seq<char>, Option<String>>)
    ensures
        fills_only(tunnel_steps(v, m), Table::WgTunnels, Table::WgPeers),
    decreases v.len(),
{
    if v.len() > 0 {
        lemma_tunnel_target(v.drop_last(), m);
        lemma_peer_target(v.last().peers@);
        let init = tunnel_steps(v.drop_last(), m);
        assert forall|i: int| 0 <= i < tunnel_steps(v, m).len() implies fills(
            #[trigger] tunnel_steps(v, m)[i],
            Table::WgTunnels,
            Table::WgPeers,
        ) by {
            if i < init.len() {
                assert(fills(init[i], Table::WgTunnels, Table::WgPeers));
            } else if i > init.len() {
                assert(fills(peer_steps(v.last().peers@)[i - init.len() - 1], Table::WgPeers, Table::WgPeers));
            }
        }
    }
}

proof fn lemma_sa_target(v: Seq<IpsecSaConfig>)
    ensures
        fills_only(sa_steps(v), Table::IpsecSas, Table::IpsecSas),
    decreases v.len(),
{
    if v.len() > 0 {
        lemma_sa_target(v.drop_last());
        let init = sa_steps(v.drop_last());
        assert forall|i: int| 0 <= i < sa_steps(v).len() implies fills(
            #[trigger] sa_steps(v)[i],
            Table::IpsecSas,
            Table::IpsecSas,
        ) by {
            if i < init.len() {
                assert(fills(init[i], Table::IpsecSas, Table::IpsecSas));
            }
        }
    }
}

proof fn lemma_ipsec_tunnel_target(v: Seq<IpsecTunnel>)
    ensures
        fills_only(ipsec_tunnel_steps(v), Table::IpsecTunnels, Table::IpsecTunnels),
    decreases v.len(),
{
    if v.len() > 0 {
        lemma_ipsec_tunnel_target(v.drop_last());
        let init = ipsec_tunnel_steps(v.drop_last());
        assert forall|i: int| 0 <= i < ipsec_tunnel_steps(v).len() implies fills(
            #[trigger] ipsec_tunnel_steps(v)[i],
            Table::IpsecTunnels,
            Table::IpsecTunnels,
        ) by {
            if i < init.len() {
                assert(fills(init[i], Table::IpsecTunnels, Table::IpsecTunnels));
            }
        }
    }
}

proof fn lemma_queue_target(v: Seq<QueueConfigEntry>, m: Map<Seq<char>, Option<String>>)
    ensures
        fills_only(queue_steps(v, m), Table::QueueConfigs, Table::QueueConfigs),
    decreases v.len(),
{
    if v.len() > 0 {
        lemma_queue_target(v.drop_last(), m);
        let init = queue_steps(v.drop_last(), m);
        assert forall|i: int| 0 <= i < queue_steps(v, m).len() implies fills(
            #[trigger] queue_steps(v, m)[i],
            Table::QueueConfigs,
            Table::QueueConfigs,
        ) by {
            if i < init.len() {
                assert(fills(init[i], Table::QueueConfigs, Table::QueueConfigs));
            }
        }
    }
}

proof fn lemma_limit_target(v: Seq<RateLimitEntry>, m: Map<Seq<char>, Option<String>>)
    ensures
        fills_only(limit_steps(v, m), Table::RateLimitRules, Table::RateLimitRules),
    decreases v.len(),
{
    if v.len() > 0 {
        lemma_limit_target(v.drop_last(), m);
        let init = limit_steps(v.drop_last(), m);
        assert forall|i: int| 0 <= i < limit_steps(v, m).len() implies fills(
            #[trigger] limit_steps(v, m)[i],
            Table::RateLimitRules,
            Table::RateLimitRules,
        ) by {
            if i < init.len() {
                assert(fills(init[i], Table::RateLimitRules, Table::RateLimitRules));
            }
        }
    }
}

proof fn lemma_sni_target(v: Seq<SniRuleConfig>)
    ensures
        fills_only(sni_steps(v), Table::SniRules, Table::SniRules),
    decreases v.len(),
{
    if v.len() > 0 {
        lemma_sni_target(v.drop_last());
        let init = sni_steps(v.drop_last());
        assert forall|i: int| 0 <= i < sni_steps(v).len() implies fills(
            #[trigger] sni_steps(v)[i],
            Table::SniRules,
            Table::SniRules,
        ) by {
            if i < init.len() {
                assert(fills(init[i], Table::SniRules, Table::SniRules));
            }
        }
    }
}

proof fn lemma_ja3_target(v: Seq<String>)
    ensures
        fills_only(ja3_steps(v), Table::Ja3Blocklist, Table::Ja3Blocklist),
    decreases v.len(),
{
    if v.len() > 0 {
        lemma_ja3_target(v.drop_last());
        let init = ja3_steps(v.drop_last());
        assert forall|i: int| 0 <= i < ja3_steps(v).len() implies fills(
            #[trigger] ja3_steps(v)[i],
            Table::Ja3Blocklist,
            Table::Ja3Blocklist,
        ) by {
            if i < init.len() {
                assert(fills(init[i], Table::Ja3Blocklist, Table::Ja3Blocklist));
            }
        }
    }
}

proof fn lemma_vip_target(v: Seq<CarpVipConfig>, m: Map<Seq<char>, Option<String>>)
    ensures
        fills_only(vip_steps(v, m), Table::CarpVips, Table::CarpVips),
    decreases v.len(),
{
    if v.len() > 0 {
        lemma_vip_target(v.drop_last(), m);
        let init = vip_steps(v.drop_last(), m);
        assert forall|i: int| 0 <= i < vip_steps(v, m).len() implies fills(
            #[trigger] vip_steps(v, m)[i],
            Table::CarpVips,
            Table::CarpVips,
        ) by {
            if i < init.len() {
                assert(fills(init[i], Table::CarpVips, Table::CarpVips));
            }
        }
    }
}

proof fn lemma_node_target(v: Seq<ClusterNodeConfig>)
    ensures
        fills_only(node_steps(v), Table::ClusterNodes, Table::ClusterNodes),
    decreases v.len(),
{
    if v.len() > 0 {
        lemma_node_target(v.drop_last());
        let init = node_steps(v.drop_last());
        assert forall|i: int| 0 <= i < node_steps(v).len() implies fills(
            #[trigger] node_steps(v)[i],
            Table::ClusterNodes,
            Table::ClusterNodes,
        ) by {
            if i < init.len() {
                assert(fills(init[i], Table::ClusterNodes, Table::ClusterNodes));
            }
        }
    }
}

proof fn lemma_subnet_target(v: Seq<DhcpSubnetConfig>)
    ensures
        fills_only(subnet_steps(v), Table::DhcpSubnets, Table::DhcpSubnets),
    decreases v.len(),
{
    if v.len() > 0 {
        lemma_subnet_target(v.drop_last());
        let init = subnet_steps(v.drop_last());
        assert forall|i: int| 0 <= i < subnet_steps(v).len() implies fills(
            #[trigger] subnet_steps(v)[i],
            Table::DhcpSubnets,
            Table::DhcpSubnets,
        ) by {
            if i < init.len() {
                assert(fills(init[i], Table::DhcpSubnets, Table::DhcpSubnets));
            }
        }
    }
}

proof fn lemma_reservation_target(v: Seq<DhcpReservationConfig>)
    ensures
        fills_only(reservation_steps(v), Table::DhcpReservations, Table::DhcpReservations),
    decreases v.len(),
{
    if v.len() > 0 {
        lemma_reservation_target(v.drop_last());
        let init = reservation_steps(v.drop_last());
        assert forall|i: int| 0 <= i < reservation_steps(v).len() implies fills(
            #[trigger] reservation_steps(v)[i],
            Table::DhcpReservations,
            Table::DhcpReservations,
        ) by {
            if i < init.len() {
                assert(fills(init[i], Table::DhcpReservations, Table::DhcpReservations));
            }
        }
    }
}

proof fn lemma_policy_order(c: FirewallConfig, m: Map<Seq<char>, Option<String>>)
    ensures
        is_orderly(policy_steps(c, m)),
        forall|i: int| 0 <= i < policy_steps(c, m).len() ==> target(#[trigger] policy_steps(c, m)[i])
            != Table::DnsResolverConfig,
{
    let e = Seq::<RowStep>::empty();
    let ts = base_tables();
    lemma_clears_grow(e, ts);
    let s = e + clears(ts);
    assert(s =~= clears(ts));
    assert(is_cleared(s, ts[0]) && is_cleared(s, ts[1]) && is_cleared(s, ts[2]) && is_cleared(s, ts[3]) && is_cleared(
        s,
        ts[4],
    ) && is_cleared(s, ts[5]) && is_cleared(s, ts[6]) && is_cleared(s, ts[7]) && is_cleared(s, ts[8]));
    lemma_rule_target(c.rules@, m);
    lemma_order_grows(s, rule_steps(c.rules@, m), Table::Rules, Table::Rules);
    let s = s + rule_steps(c.rules@, m);
    lemma_nat_target(c.nat@, m);
    lemma_order_grows(s, nat_steps(c.nat@, m), Table::NatRules, Table::NatRules);
    let s = s + nat_steps(c.nat@, m);
    lemma_alias_target(c.aliases@);
    lemma_order_grows(s, alias_steps(c.aliases@), Table::Aliases, Table::Aliases);
    let s = s + alias_steps(c.aliases@);
    lemma_route_target(c.static_routes@, m);
    lemma_order_grows(s, route_steps(c.static_routes@, m), Table::StaticRoutes, Table::StaticRoutes);
    let s = s + route_steps(c.static_routes@, m);
    lemma_geoip_target(c.geoip@);
    lemma_order_grows(s, geoip_steps(c.geoip@), Table::GeoipRules, Table::GeoipRules);
    let s = s + geoip_steps(c.geoip@);
    lemma_tunnel_target(c.vpn.wireguard@, m);
    lemma_order_grows(s, tunnel_steps(c.vpn.wireguard@, m), Table::WgTunnels, Table::WgPeers);
    let s = s + tunnel_steps(c.vpn.wireguard@, m);
    lemma_sa_target(c.vpn.ipsec@);
    lemma_order_grows(s, sa_steps(c.vpn.ipsec@), Table::IpsecSas, Table::IpsecSas);
    let s = s + sa_steps(c.vpn.ipsec@);
    lemma_ipsec_tunnel_target(c.vpn.ipsec_tunnels@);
    lemma_order_grows(s, ipsec_tunnel_steps(c.vpn.ipsec_tunnels@), Table::IpsecTunnels, Table::IpsecTunnels);
}

proof fn lemma_service_order(a: Seq<RowStep>, c: FirewallConfig, m: Map<Seq<char>, Option<String>>)
    requires
        is_orderly(a),
    ensures
        is_orderly(a + service_steps(c, m)),
        forall|i: int| 0 <= i < service_steps(c, m).len() ==> target(#[trigger] service_steps(c, m)[i])
            != Table::DnsResolverConfig,
{
    let auth = puts(Table::AuthConfig, auth_rows(c.auth));
    lemma_order_grows(a, auth, Table::AuthConfig, Table::AuthConfig);
    let s = a + auth;
    let shaping = seq![Table::QueueConfigs, Table::RateLimitRules];
    lemma_clears_grow(s, shaping);
    let s = s + clears(shaping);
    assert(is_cleared(s, shaping[0]) && is_cleared(s, shaping[1]));
    lemma_queue_target(c.queues@, m);
    lemma_order_grows(s, queue_steps(c.queues@, m), Table::QueueConfigs, Table::QueueConfigs);
    let s = s + queue_steps(c.queues@, m);
    lemma_limit_target(c.rate_limits@, m);
    lemma_order_grows(s, limit_steps(c.rate_limits@, m), Table::RateLimitRules, Table::RateLimitRules);
    let s = s + limit_steps(c.rate_limits@, m);
    let tls = seq![Table::SniRules, Table::Ja3Blocklist];
    lemma_clears_grow(s, tls);
    let s = s + clears(tls);
    assert(is_cleared(s, tls[0]) && is_cleared(s, tls[1]));
    lemma_sni_target(c.tls.sni_rules@);
    lemma_order_grows(s, sni_steps(c.tls.sni_rules@), Table::SniRules, Table::SniRules);
    let s = s + sni_steps(c.tls.sni_rules@);
    lemma_ja3_target(c.tls.blocked_ja3@);
    lemma_order_grows(s, ja3_steps(c.tls.blocked_ja3@), Table::Ja3Blocklist, Table::Ja3Blocklist);
    let s = s + ja3_steps(c.tls.blocked_ja3@);
    let ha = seq![Table::CarpVips, Table::PfsyncConfig, Table::ClusterNodes];
    lemma_clears_grow(s, ha);
    let s = s + clears(ha);
    assert(is_cleared(s, ha[0]) && is_cleared(s, ha[1]) && is_cleared(s, ha[2]));
    lemma_vip_target(c.ha.carp_vips@, m);
    lemma_order_grows(s, vip_steps(c.ha.carp_vips@, m), Table::CarpVips, Table::CarpVips);
    let s = s + vip_steps(c.ha.carp_vips@, m);
    lemma_order_grows(s, pfsync_steps(c.ha.pfsync, m), Table::PfsyncConfig, Table::PfsyncConfig);
    let s = s + pfsync_steps(c.ha.pfsync, m);
    lemma_node_target(c.ha.nodes@);
    lemma_order_grows(s, node_steps(c.ha.nodes@), Table::ClusterNodes, Table::ClusterNodes);
    let s = s + node_steps(c.ha.nodes@);
    assert(s =~= a + service_steps(c, m));
}

proof fn lemma_dhcp_order(a: Seq<RowStep>, d: DhcpSection)
    requires
        is_orderly(a),
    ensures
        is_orderly(a + dhcp_steps(d)),
        forall|i: int| 0 <= i < dhcp_steps(d).len() ==> target(#[trigger] dhcp_steps(d)[i]) != Table::DnsResolverConfig,
{
    let ts = seq![
        Table::DhcpSubnets,
        Table::DhcpReservations,
        Table::DhcpConfig,
        Table::DhcpDdnsConfig,
        Table::DhcpHaConfig,
    ];
    lemma_clears_grow(a, ts);
    let s = a + clears(ts);
    assert(is_cleared(s, ts[0]) && is_cleared(s, ts[1]) && is_cleared(s, ts[2]) && is_cleared(s, ts[3]) && is_cleared(
        s,
        ts[4],
    ));
    let global = puts(Table::DhcpConfig, global_rows(d.global@));
    lemma_order_grows(s, global, Table::DhcpConfig, Table::DhcpConfig);
    let s = s + global;
    lemma_subnet_target(d.subnets@);
    lemma_order_grows(s, subnet_steps(d.subnets@), Table::DhcpSubnets, Table::DhcpSubnets);
    let s = s + subnet_steps(d.subnets@);
    lemma_reservation_target(d.reservations@);
    lemma_order_grows(s, reservation_steps(d.reservations@), Table::DhcpReservations, Table::DhcpReservations);
    let s = s + reservation_steps(d.reservations@);
    let ddns = puts(Table::DhcpDdnsConfig, ddns_rows(d.ddns@));
    lemma_order_grows(s, ddns, Table::DhcpDdnsConfig, Table::DhcpDdnsConfig);
    let s = s + ddns;
    let ha = puts(Table::DhcpHaConfig, ha_rows(d.dhcp_ha@));
    lemma_order_grows(s, ha, Table::DhcpHaConfig, Table::DhcpHaConfig);
    let s = s + ha;
    assert(s =~= a + dhcp_steps(d));
}

/// A restore never mixes old rows with new ones: every table that it fills was
/// emptied before, except the two tables of settings whose rows it replaces
/// one by one.
pub proof fn tables_are_emptied_before_they_are_filled(c: FirewallConfig, m: Map<Seq<char>, Option<String>>)
    ensures
        is_orderly(all_row_steps(c, m)),
{
    lemma_policy_order(c, m);
    let s = policy_steps(c, m);
    lemma_service_order(s, c, m);
    let s = s + service_steps(c, m);
    lemma_dhcp_order(s, c.dhcp);
    let s = s + dhcp_steps(c.dhcp);
    lemma_order_grows(s, resolver_steps(c.dns_resolver), Table::DnsResolverConfig, Table::DnsResolverConfig);
}

/// Restoring a backup that has no resolver settings does not touch the
/// settings of the machine.
pub proof fn legacy_restore_keeps_resolver_settings(c: FirewallConfig, m: Map<Seq<char>, Option<String>>)
    requires
        c.dns_resolver is None,
    ensures
        forall|i: int| 0 <= i < all_row_steps(c, m).len() ==> target(#[trigger] all_row_steps(c, m)[i])
            != Table::DnsResolverConfig,
{
    let p = policy_steps(c, m);
    let v = service_steps(c, m);
    let d = dhcp_steps(c.dhcp);
    lemma_policy_order(c, m);
    lemma_service_order(p, c, m);
    lemma_dhcp_order(p + v, c.dhcp);
    let all = all_row_steps(c, m);
    assert forall|i: int| 0 <= i < all.len() implies target(#[trigger] all[i]) != Table::DnsResolverConfig by {
        if i < p.len() {
            assert(all[i] == p[i]);
        } else if i < p.len() + v.len() {
            assert(all[i] == v[i - p.len()]);
        } else {
            assert(all[i] == d[i - p.len() - v.len()]);
        }
    }
}

/// Restoring a backup that has resolver settings ends with the rows of exactly
/// these settings, and what is loaded from them are the settings of the
/// backup, whatever the defaults.
pub proof fn restore_gives_resolver_settings_back(
    c: FirewallConfig,
    m: Map<Seq<char>, Option<String>>,
    d: ResolverView,
)
    requires
        c.dns_resolver is Some,
        is_storable(c.dns_resolver->0@),
    ensures
        ({
            let rows = config_rows(c.dns_resolver->0@);
            let all = all_row_steps(c, m);
            &&& all.len() >= rows.len()
            &&& all.skip(all.len() - rows.len()) == puts(Table::DnsResolverConfig, rows)
            &&& config_of_rows(rows, d) == c.dns_resolver->0@
        }),
{
    let rows = config_rows(c.dns_resolver->0@);
    let all = all_row_steps(c, m);
    assert(all.skip(all.len() - rows.len()) =~= puts(Table::DnsResolverConfig, rows));
    config_round_trip(c.dns_resolver->0@, d);
}

/// The map that drops exactly the entries on the interfaces `missing`.
pub open spec fn drops_exactly(m: Map<Seq<char>, Option<String>>, missing: Seq<Seq<char>>) -> bool {
    &&& forall|x: Seq<char>| #[trigger] m.contains_key(x) <==> missing.contains(x)
    &&& forall|x: Seq<char>| m.contains_key(x) ==> #[trigger] m[x] is None
}

/// How many of the changes add a tunnel.
pub open spec fn tunnels_added(s: Seq<RowStep>) -> nat
    decreases s.len(),
{
    if s.len() == 0 {
        0
    } else {
        tunnels_added(s.drop_last()) + if s.last() is AddTunnel {
            1nat
        } else {
            0
        }
    }
}

proof fn lemma_tunnels_added_grows(a: Seq<RowStep>, b: Seq<RowStep>)
    ensures
        tunnels_added(a + b) == tunnels_added(a) + tunnels_added(b),
    decreases b.len(),
{
    if b.len() == 0 {
        assert(a + b =~= a);
    } else {
        assert((a + b).drop_last() =~= a + b.drop_last());
        lemma_tunnels_added_grows(a, b.drop_last());
    }
}

proof fn lemma_peers_add_no_tunnel(v: Seq<WireguardPeerConfig>)
    ensures
        tunnels_added(peer_steps(v)) == 0,
    decreases v.len(),
{
    if v.len() > 0 {
        lemma_peers_add_no_tunnel(v.drop_last());
        let init = peer_steps(v.drop_last());
        assert(peer_steps(v).drop_last() =~= init);
    }
}

proof fn lemma_rule_drops(v: Seq<RuleConfig>, m: Map<Seq<char>, Option<String>>, missing: Seq<Seq<char>>)
    requires
        drops_exactly(m, missing),
    ensures
        rule_steps(v, m).len() + lost_rules(v, missing) == v.len(),
    decreases v.len(),
{
    if v.len() > 0 {
        lemma_rule_drops(v.drop_last(), m, missing);
        if v.last().interface is Some {
            let n = v.last().interface->0@;
            assert(m.contains_key(n) <==> missing.contains(n));
            if m.contains_key(n) {
                assert(m[n] is None);
            }
        }
    }
}

proof fn lemma_nat_drops(v: Seq<NatRuleConfig>, m: Map<Seq<char>, Option<String>>, missing: Seq<Seq<char>>)
    requires
        drops_exactly(m, missing),
    ensures
        nat_steps(v, m).len() + lost_nat(v, missing) == v.len(),
    decreases v.len(),
{
    if v.len() > 0 {
        lemma_nat_drops(v.drop_last(), m, missing);
        let n = v.last().interface@;
        assert(m.contains_key(n) <==> missing.contains(n));
        if m.contains_key(n) {
            assert(m[n] is None);
        }
    }
}

proof fn lemma_queue_drops(v: Seq<QueueConfigEntry>, m: Map<Seq<char>, Option<String>>, missing: Seq<Seq<char>>)
    requires
        drops_exactly(m, missing),
    ensures
        queue_steps(v, m).len() + lost_queues(v, missing) == v.len(),
    decreases v.len(),
{
    if v.len() > 0 {
        lemma_queue_drops(v.drop_last(), m, missing);
        let n = v.last().interface@;
        assert(m.contains_key(n) <==> missing.contains(n));
        if m.contains_key(n) {
            assert(m[n] is None);
        }
    }
}

proof fn lemma_limit_drops(v: Seq<RateLimitEntry>, m: Map<Seq<char>, Option<String>>, missing: Seq<Seq<char>>)
    requires
        drops_exactly(m, missing),
    ensures
        limit_steps(v, m).len() + lost_limits(v, missing) == v.len(),
    decreases v.len(),
{
    if v.len() > 0 {
        lemma_limit_drops(v.drop_last(), m, missing);
        if v.last().interface is Some {
            let n = v.last().interface->0@;
            assert(m.contains_key(n) <==> missing.contains(n));
            if m.contains_key(n) {
                assert(m[n] is None);
            }
        }
    }
}

proof fn lemma_tunnel_drops(v: Seq<WireguardTunnelConfig>, m: Map<Seq<char>, Option<String>>, missing: Seq<Seq<char>>)
    requires
        drops_exactly(m, missing),
    ensures
        tunnels_added(tunnel_steps(v, m)) + lost_tunnels(v, missing) == v.len(),
    decreases v.len(),
{
    if v.len() > 0 {
        lemma_tunnel_drops(v.drop_last(), m, missing);
        let n = v.last().interface@;
        assert(m.contains_key(n) <==> missing.contains(n));
        let init = tunnel_steps(v.drop_last(), m);
        if m.contains_key(n) {
            assert(m[n] is None);
        } else {
            let one = init.push(RowStep::AddTunnel(id_of(v.last().id@), v.last(), n));
            lemma_tunnels_added_grows(one, peer_steps(v.last().peers@));
            lemma_peers_add_no_tunnel(v.last().peers@);
            assert(one.drop_last() =~= init);
        }
    }
}

/// Every shared address is an address.
pub open spec fn vips_are_ips(v: Seq<CarpVipConfig>) -> bool {
    forall|i: int| 0 <= i < v.len() ==> is_ip((#[trigger] v[i]).virtual_ip@)
}

proof fn lemma_vip_drops(v: Seq<CarpVipConfig>, m: Map<Seq<char>, Option<String>>, missing: Seq<Seq<char>>)
    requires
        drops_exactly(m, missing),
        vips_are_ips(v),
    ensures
        vip_steps(v, m).len() + lost_vips(v, missing) == v.len(),
    decreases v.len(),
{
    if v.len() > 0 {
        let init = v.drop_last();
        assert forall|i: int| 0 <= i < init.len() implies is_ip((#[trigger] init[i]).virtual_ip@) by {
            assert(init[i] == v[i]);
        }
        lemma_vip_drops(init, m, missing);
        assert(is_ip(v[v.len() - 1].virtual_ip@));
        let n = v.last().interface@;
        assert(m.contains_key(n) <==> missing.contains(n));
        if m.contains_key(n) {
            assert(m[n] is None);
        }
    }
}

/// The preview of an import counts what the restore drops: under the map that
/// gives none of the missing interfaces another name, each section of the
/// summary loses exactly the entries that are counted, and keeps the others. (A
/// shared address that is no address is skipped by the restore as well, so the
/// count is stated where there is none.)
pub proof fn preview_counts_what_a_restore_drops(
    c: FirewallConfig,
    m: Map<Seq<char>, Option<String>>,
    missing: Seq<Seq<char>>,
)
    requires
        drops_exactly(m, missing),
    ensures
        rule_steps(c.rules@, m).len() + lost_rules(c.rules@, missing) == c.rules@.len(),
        nat_steps(c.nat@, m).len() + lost_nat(c.nat@, missing) == c.nat@.len(),
        tunnels_added(tunnel_steps(c.vpn.wireguard@, m)) + lost_tunnels(c.vpn.wireguard@, missing)
            == c.vpn.wireguard@.len(),
        queue_steps(c.queues@, m).len() + lost_queues(c.queues@, missing) == c.queues@.len(),
        limit_steps(c.rate_limits@, m).len() + lost_limits(c.rate_limits@, missing) == c.rate_limits@.len(),
        vips_are_ips(c.ha.carp_vips@) ==> vip_steps(c.ha.carp_vips@, m).len() + lost_vips(c.ha.carp_vips@, missing)
            == c.ha.carp_vips@.len(),
        c.ha.pfsync is Some && pfsync_parses(c.ha.pfsync->0) ==> (pfsync_steps(c.ha.pfsync, m).len() == 0
            <==> missing.contains(c.ha.pfsync->0.sync_interface@)),
{
    lemma_rule_drops(c.rules@, m, missing);
    lemma_nat_drops(c.nat@, m, missing);
    lemma_tunnel_drops(c.vpn.wireguard@, m, missing);
    lemma_queue_drops(c.queues@, m, missing);
    lemma_limit_drops(c.rate_limits@, m, missing);
    if vips_are_ips(c.ha.carp_vips@) {
        lemma_vip_drops(c.ha.carp_vips@, m, missing);
    }
    if c.ha.pfsync is Some {
        let n = c.ha.pfsync->0.sync_interface@;
        assert(m.contains_key(n) <==> missing.contains(n));
        if m.contains_key(n) {
            assert(m[n] is None);
        }
    }
}

/// A literal restore, without a map, keeps every rule in its place and on its
/// own interface.
pub proof fn literal_restore_keeps_rules(v: Seq<RuleConfig>)
    ensures
        ({
            let s = rule_steps(v, Map::<Seq<char>, Option<String>>::empty());
            &&& s.len() == v.len()
            &&& forall|i: int|
                0 <= i < v.len() ==> #[trigger] s[i] == RowStep::AddRule(id_of(v[i].id@), v[i], option_view(v[i].interface))
        }),
    decreases v.len(),
{
    let m = Map::<Seq<char>, Option<String>>::empty();
    if v.len() > 0 {
        literal_restore_keeps_rules(v.drop_last());
        let init = rule_steps(v.drop_last(), m);
        let s = rule_steps(v, m);
        assert forall|i: int| 0 <= i < v.len() implies #[trigger] s[i] == RowStep::AddRule(
            id_of(v[i].id@),
            v[i],
            option_view(v[i].interface),
        ) by {
            if i < init.len() {
                assert(s[i] == init[i]);
                assert(v.drop_last()[i] == v[i]);
            }
        }
    }
}

// ---------------------------------------------------------------------------
// Entities
// ---------------------------------------------------------------------------

/// Every entry of the changes stands for an entity.
pub open spec fn all_convert(s: Seq<RowStep>) -> bool {
    forall|i: int| 0 <= i < s.len() ==> converts(#[trigger] s[i])
}

proof fn lemma_convert_grows(a: Seq<RowStep>, b: Seq<RowStep>)
    requires
        all_convert(a),
        all_convert(b),
    ensures
        all_convert(a + b),
{
    assert forall|i: int| 0 <= i < (a + b).len() implies converts(#[trigger] (a + b)[i]) by {
        if i < a.len() {
            assert(converts(a[i]));
        } else {
            assert(converts(b[i - a.len()]));
        }
    }
}

/// A table whose entries are stored as they are, or always stand for an entity.
spec fn is_plain(t: Table) -> bool {
    t != Table::Rules && t != Table::NatRules && t != Table::CarpVips && t != Table::PfsyncConfig && t
        != Table::ClusterNodes
}

proof fn lemma_plain_converts(s: Seq<RowStep>, a: Table, b: Table)
    requires
        fills_only(s, a, b),
        is_plain(a),
        is_plain(b),
    ensures
        all_convert(s),
{
    assert forall|i: int| 0 <= i < s.len() implies converts(#[trigger] s[i]) by {
        assert(fills(s[i], a, b));
    }
}

proof fn lemma_rules_convert(v: Seq<RuleConfig>, m: Map<Seq<char>, Option<String>>)
    requires
        rules_restorable(v, m),
    ensures
        all_convert(rule_steps(v, m)),
    decreases v.len(),
{
    if v.len() > 0 {
        assert forall|i: int| 0 <= i < v.drop_last().len() implies rule_restorable(#[trigger] v.drop_last()[i], m) by {
            assert(rule_restorable(v[i], m));
        }
        lemma_rules_convert(v.drop_last(), m);
        assert(rule_restorable(v[v.len() - 1], m));
        let init = rule_steps(v.drop_last(), m);
        assert forall|i: int| 0 <= i < rule_steps(v, m).len() implies converts(#[trigger] rule_steps(v, m)[i]) by {
            if i < init.len() {
                assert(converts(init[i]));
            }
        }
    }
}

proof fn lemma_nats_convert(v: Seq<NatRuleConfig>, m: Map<Seq<char>, Option<String>>)
    requires
        nat_rules_restorable(v, m),
    ensures
        all_convert(nat_steps(v, m)),
    decreases v.len(),
{
    if v.len() > 0 {
        assert forall|i: int| 0 <= i < v.drop_last().len() implies nat_restorable(#[trigger] v.drop_last()[i], m) by {
            assert(nat_restorable(v[i], m));
        }
        lemma_nats_convert(v.drop_last(), m);
        assert(nat_restorable(v[v.len() - 1], m));
        let init = nat_steps(v.drop_last(), m);
        assert forall|i: int| 0 <= i < nat_steps(v, m).len() implies converts(#[trigger] nat_steps(v, m)[i]) by {
            if i < init.len() {
                assert(converts(init[i]));
            }
        }
    }
}

proof fn lemma_vips_convert(v: Seq<CarpVipConfig>, m: Map<Seq<char>, Option<String>>)
    ensures
        all_convert(vip_steps(v, m)),
    decreases v.len(),
{
    if v.len() > 0 {
        lemma_vips_convert(v.drop_last(), m);
        let init = vip_steps(v.drop_last(), m);
        assert forall|i: int| 0 <= i < vip_steps(v, m).len() implies converts(#[trigger] vip_steps(v, m)[i]) by {
            if i < init.len() {
                assert(converts(init[i]));
            }
        }
    }
}

proof fn lemma_nodes_convert(v: Seq<ClusterNodeConfig>)
    ensures
        all_convert(node_steps(v)),
    decreases v.len(),
{
    if v.len() > 0 {
        lemma_nodes_convert(v.drop_last());
        let init = node_steps(v.drop_last());
        assert forall|i: int| 0 <= i < node_steps(v).len() implies converts(#[trigger] node_steps(v)[i]) by {
            if i < init.len() {
                assert(converts(init[i]));
            }
        }
    }
}

proof fn lemma_policy_converts(c: FirewallConfig, m: Map<Seq<char>, Option<String>>)
    requires
        restorable(c, m),
    ensures
        all_convert(policy_steps(c, m)),
{
    let s = clears(base_tables());
    lemma_rules_convert(c.rules@, m);
    lemma_convert_grows(s, rule_steps(c.rules@, m));
    let s = s + rule_steps(c.rules@, m);
    lemma_nats_convert(c.nat@, m);
    lemma_convert_grows(s, nat_steps(c.nat@, m));
    let s = s + nat_steps(c.nat@, m);
    lemma_alias_target(c.aliases@);
    lemma_plain_converts(alias_steps(c.aliases@), Table::Aliases, Table::Aliases);
    lemma_convert_grows(s, alias_steps(c.aliases@));
    let s = s + alias_steps(c.aliases@);
    lemma_route_target(c.static_routes@, m);
    lemma_plain_converts(route_steps(c.static_routes@, m), Table::StaticRoutes, Table::StaticRoutes);
    lemma_convert_grows(s, route_steps(c.static_routes@, m));
    let s = s + route_steps(c.static_routes@, m);
    lemma_geoip_target(c.geoip@);
    lemma_plain_converts(geoip_steps(c.geoip@), Table::GeoipRules, Table::GeoipRules);
    lemma_convert_grows(s, geoip_steps(c.geoip@));
    let s = s + geoip_steps(c.geoip@);
    lemma_tunnel_target(c.vpn.wireguard@, m);
    lemma_plain_converts(tunnel_steps(c.vpn.wireguard@, m), Table::WgTunnels, Table::WgPeers);
    lemma_convert_grows(s, tunnel_steps(c.vpn.wireguard@, m));
    let s = s + tunnel_steps(c.vpn.wireguard@, m);
    lemma_sa_target(c.vpn.ipsec@);
    lemma_plain_converts(sa_steps(c.vpn.ipsec@), Table::IpsecSas, Table::IpsecSas);
    lemma_convert_grows(s, sa_steps(c.vpn.ipsec@));
    let s = s + sa_steps(c.vpn.ipsec@);
    lemma_ipsec_tunnel_target(c.vpn.ipsec_tunnels@);
    lemma_plain_converts(ipsec_tunnel_steps(c.vpn.ipsec_tunnels@), Table::IpsecTunnels, Table::IpsecTunnels);
    lemma_convert_grows(s, ipsec_tunnel_steps(c.vpn.ipsec_tunnels@));
}

proof fn lemma_service_converts(c: FirewallConfig, m: Map<Seq<char>, Option<String>>)
    ensures
        all_convert(service_steps(c, m)),
{
    let s = puts(Table::AuthConfig, auth_rows(c.auth)) + clears(seq![Table::QueueConfigs, Table::RateLimitRules]);
    lemma_convert_grows(
        puts(Table::AuthConfig, auth_rows(c.auth)),
        clears(seq![Table::QueueConfigs, Table::RateLimitRules]),
    );
    lemma_queue_target(c.queues@, m);
    lemma_plain_converts(queue_steps(c.queues@, m), Table::QueueConfigs, Table::QueueConfigs);
    lemma_convert_grows(s, queue_steps(c.queues@, m));
    let s = s + queue_steps(c.queues@, m);
    lemma_limit_target(c.rate_limits@, m);
    lemma_plain_converts(limit_steps(c.rate_limits@, m), Table::RateLimitRules, Table::RateLimitRules);
    lemma_convert_grows(s, limit_steps(c.rate_limits@, m));
    let s = s + limit_steps(c.rate_limits@, m);
    lemma_convert_grows(s, clears(seq![Table::SniRules, Table::Ja3Blocklist]));
    let s = s + clears(seq![Table::SniRules, Table::Ja3Blocklist]);
    lemma_sni_target(c.tls.sni_rules@);
    lemma_plain_converts(sni_steps(c.tls.sni_rules@), Table::SniRules, Table::SniRules);
    lemma_convert_grows(s, sni_steps(c.tls.sni_rules@));
    let s = s + sni_steps(c.tls.sni_rules@);
    lemma_ja3_target(c.tls.blocked_ja3@);
    lemma_plain_converts(ja3_steps(c.tls.blocked_ja3@), Table::Ja3Blocklist, Table::Ja3Blocklist);
    lemma_convert_grows(s, ja3_steps(c.tls.blocked_ja3@));
    let s = s + ja3_steps(c.tls.blocked_ja3@);
    lemma_convert_grows(s, clears(seq![Table::CarpVips, Table::PfsyncConfig, Table::ClusterNodes]));
    let s = s + clears(seq![Table::CarpVips, Table::PfsyncConfig, Table::ClusterNodes]);
    lemma_vips_convert(c.ha.carp_vips@, m);
    lemma_convert_grows(s, vip_steps(c.ha.carp_vips@, m));
    let s = s + vip_steps(c.ha.carp_vips@, m);
    lemma_convert_grows(s, pfsync_steps(c.ha.pfsync, m));
    let s = s + pfsync_steps(c.ha.pfsync, m);
    lemma_nodes_convert(c.ha.nodes@);
    lemma_convert_grows(s, node_steps(c.ha.nodes@));
}

proof fn lemma_dhcp_converts(d: DhcpSection)
    ensures
        all_convert(dhcp_steps(d)),
{
    let ts = seq![
        Table::DhcpSubnets,
        Table::DhcpReservations,
        Table::DhcpConfig,
        Table::DhcpDdnsConfig,
        Table::DhcpHaConfig,
    ];
    let s = clears(ts);
    lemma_convert_grows(s, puts(Table::DhcpConfig, global_rows(d.global@)));
    let s = s + puts(Table::DhcpConfig, global_rows(d.global@));
    lemma_subnet_target(d.subnets@);
    lemma_plain_converts(subnet_steps(d.subnets@), Table::DhcpSubnets, Table::DhcpSubnets);
    lemma_convert_grows(s, subnet_steps(d.subnets@));
    let s = s + subnet_steps(d.subnets@);
    lemma_reservation_target(d.reservations@);
    lemma_plain_converts(reservation_steps(d.reservations@), Table::DhcpReservations, Table::DhcpReservations);
    lemma_convert_grows(s, reservation_steps(d.reservations@));
    let s = s + reservation_steps(d.reservations@);
    lemma_convert_grows(s, puts(Table::DhcpDdnsConfig, ddns_rows(d.ddns@)));
    let s = s + puts(Table::DhcpDdnsConfig, ddns_rows(d.ddns@));
    lemma_convert_grows(s, puts(Table::DhcpHaConfig, ha_rows(d.dhcp_ha@)));
}

/// Nothing that a restore plans to store is skipped on the way: every entry of
/// the plan stands for an entity.
pub proof fn planned_entries_convert(c: FirewallConfig, m: Map<Seq<char>, Option<String>>)
    requires
        restorable(c, m),
    ensures
        all_convert(all_row_steps(c, m)),
{
    lemma_policy_converts(c, m);
    lemma_service_converts(c, m);
    lemma_convert_grows(policy_steps(c, m), service_steps(c, m));
    lemma_dhcp_converts(c.dhcp);
    lemma_convert_grows(policy_steps(c, m) + service_steps(c, m), dhcp_steps(c.dhcp));
    lemma_convert_grows(
        policy_steps(c, m) + service_steps(c, m) + dhcp_steps(c.dhcp),
        resolver_steps(c.dns_resolver),
    );
}

// ---------------------------------------------------------------------------
// Reverting
// ---------------------------------------------------------------------------

/// One of the tables that a revert fills.
pub open spec fn is_reverted(t: Table) -> bool {
    t == Table::Rules || t == Table::NatRules || t == Table::Aliases || t == Table::StaticRoutes
}

/// A change of the running system that concerns rules, translations or routes.
pub open spec fn is_policy_live(s: LiveStep) -> bool {
    s is ApplyRoute || s is CollectVpnRules || s is ApplyRules || s is ApplyNat
}

proof fn lemma_route_lives(v: Seq<StaticRouteConfig>, m: Map<Seq<char>, Option<String>>)
    ensures
        forall|i: int| 0 <= i < route_lives(v, m).len() ==> #[trigger] route_lives(v, m)[i] is ApplyRoute,
    decreases v.len(),
{
    if v.len() > 0 {
        lemma_route_lives(v.drop_last(), m);
        let init = route_lives(v.drop_last(), m);
        assert forall|i: int| 0 <= i < route_lives(v, m).len() implies #[trigger] route_lives(v, m)[i] is ApplyRoute by {
            if i < init.len() {
                assert(init[i] is ApplyRoute);
            }
        }
    }
}

/// A revert leaves VPNs, Geo-IP rules and everything else untouched: it changes
/// no other table than those of rules, translations, aliases and routes, and
/// nothing else of the running system. What else the snapshot holds does not
/// matter.
pub proof fn revert_leaves_the_rest_alone(c: FirewallConfig, other: FirewallConfig)
    ensures
        forall|i: int| 0 <= i < revert_row_steps(c).len() ==> is_reverted(target(#[trigger] revert_row_steps(c)[i])),
        forall|i: int| 0 <= i < revert_live_steps(c).len() ==> is_policy_live(#[trigger] revert_live_steps(c)[i]),
        c.rules == other.rules && c.nat == other.nat && c.aliases == other.aliases && c.static_routes
            == other.static_routes ==> revert_row_steps(c) == revert_row_steps(other) && revert_live_steps(c)
            == revert_live_steps(other),
{
    let m = Map::<Seq<char>, Option<String>>::empty();
    let a = clears(revert_tables());
    let r = rule_steps(c.rules@, m);
    let n = nat_steps(c.nat@, m);
    let l = alias_steps(c.aliases@);
    let s = route_steps(c.static_routes@, m);
    lemma_rule_target(c.rules@, m);
    lemma_nat_target(c.nat@, m);
    lemma_alias_target(c.aliases@);
    lemma_route_target(c.static_routes@, m);
    let all = revert_row_steps(c);
    assert forall|i: int| 0 <= i < all.len() implies is_reverted(target(#[trigger] all[i])) by {
        if i < a.len() {
            assert(all[i] == a[i]);
        } else if i < a.len() + r.len() {
            assert(fills(r[i - a.len()], Table::Rules, Table::Rules));
        } else if i < a.len() + r.len() + n.len() {
            assert(fills(n[i - a.len() - r.len()], Table::NatRules, Table::NatRules));
        } else if i < a.len() + r.len() + n.len() + l.len() {
            assert(fills(l[i - a.len() - r.len() - n.len()], Table::Aliases, Table::Aliases));
        } else {
            assert(fills(s[i - a.len() - r.len() - n.len() - l.len()], Table::StaticRoutes, Table::StaticRoutes));
        }
    }
    lemma_route_lives(c.static_routes@, m);
    let lives = route_lives(c.static_routes@, m);
    assert forall|i: int| 0 <= i < revert_live_steps(c).len() implies is_policy_live(#[trigger] revert_live_steps(c)[i]) by {
        if i < lives.len() {
            assert(lives[i] is ApplyRoute);
        }
    }
}

} // verus!
