//! What a restore stores: the entities that its entries stand for.

use vstd::prelude::*;

use crate::backup::convert::{
    carp_vip_from_config, cluster_node_from_config, is_limit_of, is_nat_of, is_node_of, is_queue_of, is_rule_of,
    is_sni_of, is_vip_of, nat_from_config, nat_parses, node_parses, pfsync_from_config, pfsync_parses,
    queue_from_config, rate_limit_from_config, rule_from_config, rule_parses, sni_rule_from_config, CarpVip,
    ClusterNode, NatRule, PfsyncConfig, QueueConfig, RateLimitRule, Rule, SniRule,
};
use crate::backup::plan::{RowOp, RowStep};
use crate::kv::option_view;
use crate::net::is_ip;

verus! {

/// Something that a restore hands to an engine.
#[derive(Clone, Debug)]
pub enum Entity {
    Rule(Rule),
    Translation(NatRule),
    Queue(QueueConfig),
    Limit(RateLimitRule),
    Sni(SniRule),
    Vip(CarpVip),
    Pfsync(PfsyncConfig),
    Node(ClusterNode),
}

/// The change stores an entity that an engine keeps.
pub open spec fn stores_entity(s: RowStep) -> bool {
    s is AddRule || s is AddNat || s is AddQueue || s is AddRateLimit || s is AddSni || s is AddVip || s is SetPfsync
        || s is AddNode
}

/// The entry of the change stands for an entity.
pub open spec fn converts(s: RowStep) -> bool {
    match s {
        RowStep::AddRule(_, rc, _) => rule_parses(rc),
        RowStep::AddNat(_, nc, _) => nat_parses(nc),
        RowStep::AddVip(_, vc, _) => is_ip(vc.virtual_ip@),
        RowStep::SetPfsync(pc, _) => pfsync_parses(pc),
        RowStep::AddNode(_, nc) => node_parses(nc),
        _ => true,
    }
}

/// `e` is the entity that the change stores: what its entry stands for, on the
/// interface that the entry is mapped to.
pub open spec fn is_entity_of(e: Entity, s: RowStep) -> bool {
    match s {
        RowStep::AddRule(_, rc, i) => e matches Entity::Rule(r) && option_view(r.interface) == i && is_rule_of(
            Rule { interface: rc.interface, ..r },
            rc,
        ),
        RowStep::AddNat(_, nc, i) => e matches Entity::Translation(n) && n.interface@ == i && is_nat_of(
            NatRule { interface: nc.interface, ..n },
            nc,
        ),
        RowStep::AddQueue(_, qc, i) => e matches Entity::Queue(q) && q.interface@ == i && is_queue_of(
            QueueConfig { interface: qc.interface, ..q },
            qc,
        ),
        RowStep::AddRateLimit(_, rc, i) => e matches Entity::Limit(r) && option_view(r.interface) == i && is_limit_of(
            RateLimitRule { interface: rc.interface, ..r },
            rc,
        ),
        RowStep::AddSni(_, sc) => e matches Entity::Sni(r) && is_sni_of(r, sc),
        RowStep::AddVip(_, vc, i) => e matches Entity::Vip(v) && v.interface@ == i && is_vip_of(
            CarpVip { interface: vc.interface, ..v },
            vc,
        ),
        RowStep::SetPfsync(pc, i) => e matches Entity::Pfsync(c) && c.sync_interface@ == i && c.sync_peer == pc.sync_peer
            && c.defer == pc.defer,
        RowStep::AddNode(_, nc) => e matches Entity::Node(n) && is_node_of(n, nc),
        _ => false,
    }
}

fn copy_name(name: &Option<String>) -> (r: Option<String>)
    ensures
        option_view(r) == option_view(*name),
{
    match name {
        Some(n) => Some(n.clone()),
        None => None,
    }
}

/// The entity that a change stores, where it stores one.
pub fn entity_of(op: &RowOp<'_>) -> (r: Option<Entity>)
    ensures
        r is Some <==> stores_entity(op@) && converts(op@),
        r matches Some(e) ==> is_entity_of(e, op@),
{
    match op {
        RowOp::AddRule { id: _, rule, interface } => match rule_from_config(rule) {
            Some(x) => {
                let mut r = x;
                r.interface = copy_name(interface);
                Some(Entity::Rule(r))
            },
            None => None,
        },
        RowOp::AddNat { id: _, translation, interface } => match nat_from_config(translation) {
            Some(x) => {
                let mut n = x;
                n.interface = interface.clone();
                Some(Entity::Translation(n))
            },
            None => None,
        },
        RowOp::AddQueue { id: _, queue, interface } => {
            let mut q = queue_from_config(queue);
            q.interface = interface.clone();
            Some(Entity::Queue(q))
        },
        RowOp::AddRateLimit { id: _, limit, interface } => {
            let mut r = rate_limit_from_config(limit);
            r.interface = copy_name(interface);
            Some(Entity::Limit(r))
        },
        RowOp::AddSni { id: _, rule } => Some(Entity::Sni(sni_rule_from_config(rule))),
        RowOp::AddVip { id: _, vip, interface } => match carp_vip_from_config(vip) {
            Some(x) => {
                let mut v = x;
                v.interface = interface.clone();
                Some(Entity::Vip(v))
            },
            None => None,
        },
        RowOp::SetPfsync { entry, interface } => match pfsync_from_config(entry) {
            Some(x) => {
                let mut c = x;
                c.sync_interface = interface.clone();
                Some(Entity::Pfsync(c))
            },
            None => None,
        },
        RowOp::AddNode { id: _, node } => match cluster_node_from_config(node) {
            Some(n) => Some(Entity::Node(n)),
            None => None,
        },
        _ => None,
    }
}

} // verus!
