//! Interface names in a configuration: which ones it refers to, which of them
//! this machine lacks, and where their entries go on a restore.

use vstd::hash_map::StringHashMap;
use vstd::prelude::*;
use vstd::string::*;

use crate::backup::model::{
    CarpVipConfig, FirewallConfig, NatRuleConfig, PfsyncEntry, QueueConfigEntry, RateLimitEntry, RuleConfig,
    StaticRouteConfig, WireguardTunnelConfig,
};
use crate::kv::option_view;
use crate::number::is_digit;
use crate::text::{chars_of, has_prefix, list_contains, push_line, same, starts_with, text_between, views};

verus! {

/// Where the interfaces of a backup go: a name stands for itself unless the
/// map gives it another one, or none, which drops the entries on it.
pub type InterfaceMap = StringHashMap<Option<String>>;

/// The name that `name` has on the target; none where its entries are dropped.
pub open spec fn mapped(name: Seq<char>, m: Map<Seq<char>, Option<String>>) -> Option<Seq<char>> {
    if m.contains_key(name) {
        option_view(m[name])
    } else {
        Some(name)
    }
}

/// Resolves a name through the map: none exactly where the entry is dropped.
pub fn map_iface(name: &str, map: &InterfaceMap) -> (r: Option<String>)
    ensures
        option_view(r) == mapped(name@, map@),
{
    match map.get(name) {
        Some(Some(new)) => Some(new.clone()),
        Some(None) => None,
        None => Some(name.to_owned()),
    }
}

/// Without a map every name stands for itself.
pub proof fn empty_map_keeps_names(name: Seq<char>)
    ensures
        mapped(name, Map::<Seq<char>, Option<String>>::empty()) == Some(name),
{
}

/// Where an entry with an optional interface goes: none where it is dropped.
pub open spec fn placed(name: Option<String>, m: Map<Seq<char>, Option<String>>) -> Option<Option<Seq<char>>> {
    match name {
        Some(n) => match mapped(n@, m) {
            Some(t) => Some(Some(t)),
            None => None,
        },
        None => Some(None),
    }
}

/// Where an entry with an optional interface goes.
pub fn place(name: &Option<String>, map: &InterfaceMap) -> (r: Option<Option<String>>)
    ensures
        match r {
            Some(t) => placed(*name, map@) == Some(option_view(t)),
            None => placed(*name, map@) is None,
        },
{
    match name {
        Some(n) => match map_iface(n.as_str(), map) {
            Some(t) => Some(Some(t)),
            None => None,
        },
        None => Some(None),
    }
}

// ---------------------------------------------------------------------------
// An ordered set of names
// ---------------------------------------------------------------------------

/// `a` comes before `b`: at the first place where they differ its character
/// is smaller, or it is a proper beginning of `b`.
pub open spec fn before(a: Seq<char>, b: Seq<char>) -> bool
    decreases a.len(),
{
    if b.len() == 0 {
        false
    } else if a.len() == 0 {
        true
    } else if a[0] == b[0] {
        before(a.skip(1), b.skip(1))
    } else {
        a[0] < b[0]
    }
}

/// Names in ascending order, each once.
pub open spec fn is_ordered(l: Seq<Seq<char>>) -> bool {
    forall|i: int, j: int| 0 <= i < j < l.len() ==> before(#[trigger] l[i], #[trigger] l[j])
}

proof fn lemma_before_is_strict(a: Seq<char>)
    ensures
        !before(a, a),
    decreases a.len(),
{
    if a.len() > 0 {
        lemma_before_is_strict(a.skip(1));
    }
}

proof fn lemma_before_transitive(a: Seq<char>, b: Seq<char>, c: Seq<char>)
    requires
        before(a, b),
        before(b, c),
    ensures
        before(a, c),
    decreases a.len(),
{
    if a.len() > 0 && a[0] == b[0] && b[0] == c[0] {
        lemma_before_transitive(a.skip(1), b.skip(1), c.skip(1));
    }
}

proof fn lemma_before_total(a: Seq<char>, b: Seq<char>)
    ensures
        before(a, b) || before(b, a) || a == b,
    decreases a.len(),
{
    if a.len() > 0 && b.len() > 0 && a[0] == b[0] {
        lemma_before_total(a.skip(1), b.skip(1));
        if a.skip(1) == b.skip(1) {
            assert(a =~= seq![a[0]] + a.skip(1));
            assert(b =~= seq![b[0]] + b.skip(1));
        }
    } else if a.len() == 0 && b.len() == 0 {
        assert(a =~= b);
    }
}

fn comes_before(a: &str, b: &str) -> (r: bool)
    ensures
        r == before(a@, b@),
{
    let x = chars_of(a);
    let y = chars_of(b);
    let mut i: usize = 0;
    assert(x@.skip(0) =~= x@);
    assert(y@.skip(0) =~= y@);
    while i < x.len() && i < y.len()
        invariant
            i <= x@.len(),
            i <= y@.len(),
            x@ == a@,
            y@ == b@,
            before(a@, b@) == before(x@.skip(i as int), y@.skip(i as int)),
        decreases x.len() - i,
    {
        assert(x@.skip(i as int)[0] == x@[i as int]);
        assert(y@.skip(i as int)[0] == y@[i as int]);
        if x[i] != y[i] {
            return x[i] < y[i];
        }
        assert(x@.skip(i as int).skip(1) =~= x@.skip(i + 1));
        assert(y@.skip(i as int).skip(1) =~= y@.skip(i + 1));
        i = i + 1;
    }
    i < y.len()
}

/// Adds a name to an ordered set.
fn add_name(l: &mut Vec<String>, name: &str)
    requires
        is_ordered(views(old(l)@)),
    ensures
        is_ordered(views(final(l)@)),
        forall|x: Seq<char>| views(final(l)@).contains(x) <==> views(old(l)@).contains(x) || x == name@,
{
    let ghost old_l = views(l@);
    let mut i: usize = 0;
    while i < l.len() && comes_before(l[i].as_str(), name)
        invariant
            i <= l@.len(),
            old_l == views(l@),
            forall|k: int| 0 <= k < i ==> before(#[trigger] old_l[k], name@),
        decreases l.len() - i,
    {
        assert(old_l[i as int] == l@[i as int]@);
        i = i + 1;
    }
    if i < l.len() && same(l[i].as_str(), name) {
        assert(old_l[i as int] == name@);
        return ;
    }
    let ghost new_l = old_l.insert(i as int, name@);
    proof {
        old_l.insert_ensures(i as int, name@);
        if i < l@.len() {
            assert(old_l[i as int] == l@[i as int]@);
            lemma_before_total(old_l[i as int], name@);
        }
        assert forall|a: int, b: int| 0 <= a < b < new_l.len() implies before(#[trigger] new_l[a], #[trigger] new_l[b]) by {
            if a < i && b == i {
                assert(before(old_l[a], name@));
            } else if a == i {
                assert(new_l[b] == old_l[b - 1]);
                assert(before(name@, old_l[i as int]));
                if b - 1 > i {
                    assert(before(old_l[i as int], old_l[b - 1]));
                    lemma_before_transitive(name@, old_l[i as int], old_l[b - 1]);
                }
            } else if b < i {
                assert(before(old_l[a], old_l[b]));
            } else if a < i {
                assert(new_l[b] == old_l[b - 1]);
                assert(before(old_l[a], old_l[b - 1]));
            } else {
                assert(new_l[a] == old_l[a - 1]);
                assert(new_l[b] == old_l[b - 1]);
                assert(before(old_l[a - 1], old_l[b - 1]));
            }
        }
        assert forall|x: Seq<char>| new_l.contains(x) <==> old_l.contains(x) || x == name@ by {
            if old_l.contains(x) {
                let k = choose|k: int| 0 <= k < old_l.len() && old_l[k] == x;
                if k < i {
                    assert(new_l[k] == x);
                } else {
                    assert(new_l[k + 1] == x);
                }
            }
            if x == name@ {
                assert(new_l[i as int] == x);
            }
            if new_l.contains(x) {
                let k = choose|k: int| 0 <= k < new_l.len() && new_l[k] == x;
                if k < i {
                    assert(old_l[k] == x);
                } else if k > i {
                    assert(old_l[k - 1] == x);
                }
            }
        }
    }
    l.insert(i, name.to_owned());
    assert(views(l@) =~= new_l);
}

// ---------------------------------------------------------------------------
// References
// ---------------------------------------------------------------------------

/// The interfaces that the rules name.
pub open spec fn rules_names(v: Seq<RuleConfig>) -> Seq<Seq<char>>
    decreases v.len(),
{
    if v.len() == 0 {
        Seq::<Seq<char>>::empty()
    } else {
        match v.last().interface {
            Some(n) => rules_names(v.drop_last()).push(n@),
            None => rules_names(v.drop_last()),
        }
    }
}

fn push_rules_names(l: &mut Vec<String>, v: &Vec<RuleConfig>)
    ensures
        views(final(l)@) == views(old(l)@) + rules_names(v@),
{
    let ghost before_l = views(l@);
    let mut i: usize = 0;
    assert(before_l + rules_names(v@.take(0)) =~= before_l);
    while i < v.len()
        invariant
            i <= v@.len(),
            views(l@) == before_l + rules_names(v@.take(i as int)),
        decreases v.len() - i,
    {
        assert(v@.take(i + 1).drop_last() =~= v@.take(i as int));
        match &v[i].interface {
            Some(n) => push_line(l, n.clone()),
            None => {},
        }
        assert(views(l@) =~= before_l + rules_names(v@.take(i + 1)));
        i = i + 1;
    }
    assert(v@.take(v@.len() as int) =~= v@);
}

/// The interfaces that the NAT rules name.
pub open spec fn nat_names(v: Seq<NatRuleConfig>) -> Seq<Seq<char>>
    decreases v.len(),
{
    if v.len() == 0 {
        Seq::<Seq<char>>::empty()
    } else {
        nat_names(v.drop_last()).push(v.last().interface@)
    }
}

fn push_nat_names(l: &mut Vec<String>, v: &Vec<NatRuleConfig>)
    ensures
        views(final(l)@) == views(old(l)@) + nat_names(v@),
{
    let ghost before_l = views(l@);
    let mut i: usize = 0;
    assert(before_l + nat_names(v@.take(0)) =~= before_l);
    while i < v.len()
        invariant
            i <= v@.len(),
            views(l@) == before_l + nat_names(v@.take(i as int)),
        decreases v.len() - i,
    {
        assert(v@.take(i + 1).drop_last() =~= v@.take(i as int));
        push_line(l, v[i].interface.clone());
        assert(views(l@) =~= before_l + nat_names(v@.take(i + 1)));
        i = i + 1;
    }
    assert(v@.take(v@.len() as int) =~= v@);
}

/// The interfaces that the WireGuard tunnels name.
pub open spec fn tunnels_names(v: Seq<WireguardTunnelConfig>) -> Seq<Seq<char>>
    decreases v.len(),
{
    if v.len() == 0 {
        Seq::<Seq<char>>::empty()
    } else {
        tunnels_names(v.drop_last()).push(v.last().interface@)
    }
}

fn push_tunnels_names(l: &mut Vec<String>, v: &Vec<WireguardTunnelConfig>)
    ensures
        views(final(l)@) == views(old(l)@) + tunnels_names(v@),
{
    let ghost before_l = views(l@);
    let mut i: usize = 0;
    assert(before_l + tunnels_names(v@.take(0)) =~= before_l);
    while i < v.len()
        invariant
            i <= v@.len(),
            views(l@) == before_l + tunnels_names(v@.take(i as int)),
        decreases v.len() - i,
    {
        assert(v@.take(i + 1).drop_last() =~= v@.take(i as int));
        push_line(l, v[i].interface.clone());
        assert(views(l@) =~= before_l + tunnels_names(v@.take(i + 1)));
        i = i + 1;
    }
    assert(v@.take(v@.len() as int) =~= v@);
}

/// The interfaces that the CARP addresses name.
pub open spec fn vips_names(v: Seq<CarpVipConfig>) -> Seq<Seq<char>>
    decreases v.len(),
{
    if v.len() == 0 {
        Seq::<Seq<char>>::empty()
    } else {
        vips_names(v.drop_last()).push(v.last().interface@)
    }
}

fn push_vips_names(l: &mut Vec<String>, v: &Vec<CarpVipConfig>)
    ensures
        views(final(l)@) == views(old(l)@) + vips_names(v@),
{
    let ghost before_l = views(l@);
    let mut i: usize = 0;
    assert(before_l + vips_names(v@.take(0)) =~= before_l);
    while i < v.len()
        invariant
            i <= v@.len(),
            views(l@) == before_l + vips_names(v@.take(i as int)),
        decreases v.len() - i,
    {
        assert(v@.take(i + 1).drop_last() =~= v@.take(i as int));
        push_line(l, v[i].interface.clone());
        assert(views(l@) =~= before_l + vips_names(v@.take(i + 1)));
        i = i + 1;
    }
    assert(v@.take(v@.len() as int) =~= v@);
}

/// The interfaces that the queues name.
pub open spec fn queues_names(v: Seq<QueueConfigEntry>) -> Seq<Seq<char>>
    decreases v.len(),
{
    if v.len() == 0 {
        Seq::<Seq<char>>::empty()
    } else {
        queues_names(v.drop_last()).push(v.last().interface@)
    }
}

fn push_queues_names(l: &mut Vec<String>, v: &Vec<QueueConfigEntry>)
    ensures
        views(final(l)@) == views(old(l)@) + queues_names(v@),
{
    let ghost before_l = views(l@);
    let mut i: usize = 0;
    assert(before_l + queues_names(v@.take(0)) =~= before_l);
    while i < v.len()
        invariant
            i <= v@.len(),
            views(l@) == before_l + queues_names(v@.take(i as int)),
        decreases v.len() - i,
    {
        assert(v@.take(i + 1).drop_last() =~= v@.take(i as int));
        push_line(l, v[i].interface.clone());
        assert(views(l@) =~= before_l + queues_names(v@.take(i + 1)));
        i = i + 1;
    }
    assert(v@.take(v@.len() as int) =~= v@);
}

/// The interfaces that the rate limits name.
pub open spec fn limits_names(v: Seq<RateLimitEntry>) -> Seq<Seq<char>>
    decreases v.len(),
{
    if v.len() == 0 {
        Seq::<Seq<char>>::empty()
    } else {
        match v.last().interface {
            Some(n) => limits_names(v.drop_last()).push(n@),
            None => limits_names(v.drop_last()),
        }
    }
}

fn push_limits_names(l: &mut Vec<String>, v: &Vec<RateLimitEntry>)
    ensures
        views(final(l)@) == views(old(l)@) + limits_names(v@),
{
    let ghost before_l = views(l@);
    let mut i: usize = 0;
    assert(before_l + limits_names(v@.take(0)) =~= before_l);
    while i < v.len()
        invariant
            i <= v@.len(),
            views(l@) == before_l + limits_names(v@.take(i as int)),
        decreases v.len() - i,
    {
        assert(v@.take(i + 1).drop_last() =~= v@.take(i as int));
        match &v[i].interface {
            Some(n) => push_line(l, n.clone()),
            None => {},
        }
        assert(views(l@) =~= before_l + limits_names(v@.take(i + 1)));
        i = i + 1;
    }
    assert(v@.take(v@.len() as int) =~= v@);
}

/// The interfaces that the static routes name.
pub open spec fn routes_names(v: Seq<StaticRouteConfig>) -> Seq<Seq<char>>
    decreases v.len(),
{
    if v.len() == 0 {
        Seq::<Seq<char>>::empty()
    } else {
        match v.last().interface {
            Some(n) => routes_names(v.drop_last()).push(n@),
            None => routes_names(v.drop_last()),
        }
    }
}

fn push_routes_names(l: &mut Vec<String>, v: &Vec<StaticRouteConfig>)
    ensures
        views(final(l)@) == views(old(l)@) + routes_names(v@),
{
    let ghost before_l = views(l@);
    let mut i: usize = 0;
    assert(before_l + routes_names(v@.take(0)) =~= before_l);
    while i < v.len()
        invariant
            i <= v@.len(),
            views(l@) == before_l + routes_names(v@.take(i as int)),
        decreases v.len() - i,
    {
        assert(v@.take(i + 1).drop_last() =~= v@.take(i as int));
        match &v[i].interface {
            Some(n) => push_line(l, n.clone()),
            None => {},
        }
        assert(views(l@) =~= before_l + routes_names(v@.take(i + 1)));
        i = i + 1;
    }
    assert(v@.take(v@.len() as int) =~= v@);
}

/// The interface that the state synchronisation names.
pub open spec fn pfsync_names(p: Option<PfsyncEntry>) -> Seq<Seq<char>> {
    match p {
        Some(e) => seq![e.sync_interface@],
        None => Seq::<Seq<char>>::empty(),
    }
}

/// Every reference to an interface, in the order of the sections.
pub open spec fn all_refs(c: FirewallConfig) -> Seq<Seq<char>> {
    rules_names(c.rules@) + nat_names(c.nat@) + tunnels_names(c.vpn.wireguard@) + vips_names(c.ha.carp_vips@)
        + pfsync_names(c.ha.pfsync) + queues_names(c.queues@) + limits_names(c.rate_limits@) + routes_names(
        c.static_routes@,
    )
}

/// Some entry of the configuration names the interface `x`.
pub open spec fn refers_to(c: FirewallConfig, x: Seq<char>) -> bool {
    all_refs(c).contains(x)
}

/// The interfaces that a configuration names, in order, each once.
pub fn collect_interface_refs(cfg: &FirewallConfig) -> (r: Vec<String>)
    ensures
        is_ordered(views(r@)),
        forall|x: Seq<char>| views(r@).contains(x) <==> refers_to(*cfg, x),
{
    let mut l: Vec<String> = Vec::new();
    assert(views(l@) + rules_names(cfg.rules@) =~= rules_names(cfg.rules@));
    push_rules_names(&mut l, &cfg.rules);
    push_nat_names(&mut l, &cfg.nat);
    push_tunnels_names(&mut l, &cfg.vpn.wireguard);
    push_vips_names(&mut l, &cfg.ha.carp_vips);
    let ghost head = views(l@);
    match &cfg.ha.pfsync {
        Some(p) => push_line(&mut l, p.sync_interface.clone()),
        None => {},
    }
    assert(views(l@) =~= head + pfsync_names(cfg.ha.pfsync));
    push_queues_names(&mut l, &cfg.queues);
    push_limits_names(&mut l, &cfg.rate_limits);
    push_routes_names(&mut l, &cfg.static_routes);
    let ghost all = views(l@);
    assert(all == all_refs(*cfg));
    let mut r: Vec<String> = Vec::new();
    let mut i: usize = 0;
    while i < l.len()
        invariant
            i <= l@.len(),
            all == views(l@),
            is_ordered(views(r@)),
            forall|x: Seq<char>| views(r@).contains(x) <==> #[trigger] all.take(i as int).contains(x),
        decreases l.len() - i,
    {
        let ghost before_r = views(r@);
        add_name(&mut r, l[i].as_str());
        assert forall|x: Seq<char>| views(r@).contains(x) <==> #[trigger] all.take(i + 1).contains(x) by {
            let a = all.take(i as int);
            let b = all.take(i + 1);
            if a.contains(x) {
                let k = choose|k: int| 0 <= k < a.len() && a[k] == x;
                assert(b[k] == x);
            }
            assert(b[i as int] == l@[i as int]@);
            if b.contains(x) && x != l@[i as int]@ {
                let k = choose|k: int| 0 <= k < b.len() && b[k] == x;
                assert(a[k] == x);
            }
        }
        i = i + 1;
    }
    assert(all.take(l@.len() as int) =~= all);
    r
}

// ---------------------------------------------------------------------------
// What would be dropped
// ---------------------------------------------------------------------------

/// How many entries of each section a restore drops.
#[derive(Clone, Copy, Debug, PartialEq, Eq, Structural)]
pub struct DropSummary {
    pub rules: u32,
    pub nat: u32,
    pub wireguard: u32,
    pub carp: u32,
    pub queues: u32,
    pub rate_limits: u32,
    pub pfsync: bool,
}

/// The interface named by an optional name is one of `missing`.
pub open spec fn is_lost(i: Option<String>, missing: Seq<Seq<char>>) -> bool {
    i is Some && missing.contains(i->0@)
}

/// How many of the rules are on one of the interfaces `missing`.
pub open spec fn lost_rules(v: Seq<RuleConfig>, missing: Seq<Seq<char>>) -> nat
    decreases v.len(),
{
    if v.len() == 0 {
        0
    } else {
        lost_rules(v.drop_last(), missing) + if is_lost(v.last().interface, missing) {
            1nat
        } else {
            0
        }
    }
}

fn count_rules(v: &Vec<RuleConfig>, missing: &Vec<String>) -> (r: u32)
    requires
        v@.len() <= u32::MAX,
    ensures
        r == lost_rules(v@, views(missing@)),
{
    let mut r: u32 = 0;
    let mut i: usize = 0;
    while i < v.len()
        invariant
            i <= v@.len() <= u32::MAX,
            r <= i,
            r == lost_rules(v@.take(i as int), views(missing@)),
        decreases v.len() - i,
    {
        assert(v@.take(i + 1).drop_last() =~= v@.take(i as int));
        let lost = match &v[i].interface {
            Some(n) => list_contains(missing, n.as_str()),
            None => false,
        };
        if lost {
            r = r + 1;
        }
        i = i + 1;
    }
    assert(v@.take(v@.len() as int) =~= v@);
    r
}

/// How many of the NAT rules are on one of the interfaces `missing`.
pub open spec fn lost_nat(v: Seq<NatRuleConfig>, missing: Seq<Seq<char>>) -> nat
    decreases v.len(),
{
    if v.len() == 0 {
        0
    } else {
        lost_nat(v.drop_last(), missing) + if missing.contains(v.last().interface@) {
            1nat
        } else {
            0
        }
    }
}

fn count_nat(v: &Vec<NatRuleConfig>, missing: &Vec<String>) -> (r: u32)
    requires
        v@.len() <= u32::MAX,
    ensures
        r == lost_nat(v@, views(missing@)),
{
    let mut r: u32 = 0;
    let mut i: usize = 0;
    while i < v.len()
        invariant
            i <= v@.len() <= u32::MAX,
            r <= i,
            r == lost_nat(v@.take(i as int), views(missing@)),
        decreases v.len() - i,
    {
        assert(v@.take(i + 1).drop_last() =~= v@.take(i as int));
        let lost = list_contains(missing, v[i].interface.as_str());
        if lost {
            r = r + 1;
        }
        i = i + 1;
    }
    assert(v@.take(v@.len() as int) =~= v@);
    r
}

/// How many of the WireGuard tunnels are on one of the interfaces `missing`.
pub open spec fn lost_tunnels(v: Seq<WireguardTunnelConfig>, missing: Seq<Seq<char>>) -> nat
    decreases v.len(),
{
    if v.len() == 0 {
        0
    } else {
        lost_tunnels(v.drop_last(), missing) + if missing.contains(v.last().interface@) {
            1nat
        } else {
            0
        }
    }
}

fn count_tunnels(v: &Vec<WireguardTunnelConfig>, missing: &Vec<String>) -> (r: u32)
    requires
        v@.len() <= u32::MAX,
    ensures
        r == lost_tunnels(v@, views(missing@)),
{
    let mut r: u32 = 0;
    let mut i: usize = 0;
    while i < v.len()
        invariant
            i <= v@.len() <= u32::MAX,
            r <= i,
            r == lost_tunnels(v@.take(i as int), views(missing@)),
        decreases v.len() - i,
    {
        assert(v@.take(i + 1).drop_last() =~= v@.take(i as int));
        let lost = list_contains(missing, v[i].interface.as_str());
        if lost {
            r = r + 1;
        }
        i = i + 1;
    }
    assert(v@.take(v@.len() as int) =~= v@);
    r
}

/// How many of the CARP addresses are on one of the interfaces `missing`.
pub open spec fn lost_vips(v: Seq<CarpVipConfig>, missing: Seq<Seq<char>>) -> nat
    decreases v.len(),
{
    if v.len() == 0 {
        0
    } else {
        lost_vips(v.drop_last(), missing) + if missing.contains(v.last().interface@) {
            1nat
        } else {
            0
        }
    }
}

fn count_vips(v: &Vec<CarpVipConfig>, missing: &Vec<String>) -> (r: u32)
    requires
        v@.len() <= u32::MAX,
    ensures
        r == lost_vips(v@, views(missing@)),
{
    let mut r: u32 = 0;
    let mut i: usize = 0;
    while i < v.len()
        invariant
            i <= v@.len() <= u32::MAX,
            r <= i,
            r == lost_vips(v@.take(i as int), views(missing@)),
        decreases v.len() - i,
    {
        assert(v@.take(i + 1).drop_last() =~= v@.take(i as int));
        let lost = list_contains(missing, v[i].interface.as_str());
        if lost {
            r = r + 1;
        }
        i = i + 1;
    }
    assert(v@.take(v@.len() as int) =~= v@);
    r
}

/// How many of the queues are on one of the interfaces `missing`.
pub open spec fn lost_queues(v: Seq<QueueConfigEntry>, missing: Seq<Seq<char>>) -> nat
    decreases v.len(),
{
    if v.len() == 0 {
        0
    } else {
        lost_queues(v.drop_last(), missing) + if missing.contains(v.last().interface@) {
            1nat
        } else {
            0
        }
    }
}

fn count_queues(v: &Vec<QueueConfigEntry>, missing: &Vec<String>) -> (r: u32)
    requires
        v@.len() <= u32::MAX,
    ensures
        r == lost_queues(v@, views(missing@)),
{
    let mut r: u32 = 0;
    let mut i: usize = 0;
    while i < v.len()
        invariant
            i <= v@.len() <= u32::MAX,
            r <= i,
            r == lost_queues(v@.take(i as int), views(missing@)),
        decreases v.len() - i,
    {
        assert(v@.take(i + 1).drop_last() =~= v@.take(i as int));
        let lost = list_contains(missing, v[i].interface.as_str());
        if lost {
            r = r + 1;
        }
        i = i + 1;
    }
    assert(v@.take(v@.len() as int) =~= v@);
    r
}

/// How many of the rate limits are on one of the interfaces `missing`.
pub open spec fn lost_limits(v: Seq<RateLimitEntry>, missing: Seq<Seq<char>>) -> nat
    decreases v.len(),
{
    if v.len() == 0 {
        0
    } else {
        lost_limits(v.drop_last(), missing) + if is_lost(v.last().interface, missing) {
            1nat
        } else {
            0
        }
    }
}

fn count_limits(v: &Vec<RateLimitEntry>, missing: &Vec<String>) -> (r: u32)
    requires
        v@.len() <= u32::MAX,
    ensures
        r == lost_limits(v@, views(missing@)),
{
    let mut r: u32 = 0;
    let mut i: usize = 0;
    while i < v.len()
        invariant
            i <= v@.len() <= u32::MAX,
            r <= i,
            r == lost_limits(v@.take(i as int), views(missing@)),
        decreases v.len() - i,
    {
        assert(v@.take(i + 1).drop_last() =~= v@.take(i as int));
        let lost = match &v[i].interface {
            Some(n) => list_contains(missing, n.as_str()),
            None => false,
        };
        if lost {
            r = r + 1;
        }
        i = i + 1;
    }
    assert(v@.take(v@.len() as int) =~= v@);
    r
}

/// The sections of a configuration are short enough to be counted in 32 bits.
pub open spec fn is_countable(c: FirewallConfig) -> bool {
    &&& c.rules@.len() <= u32::MAX
    &&& c.nat@.len() <= u32::MAX
    &&& c.vpn.wireguard@.len() <= u32::MAX
    &&& c.ha.carp_vips@.len() <= u32::MAX
    &&& c.queues@.len() <= u32::MAX
    &&& c.rate_limits@.len() <= u32::MAX
}

/// `s` counts the entries of `c` that are on one of the interfaces `missing`.
pub open spec fn is_drop_summary(s: DropSummary, c: FirewallConfig, missing: Seq<Seq<char>>) -> bool {
    &&& s.rules == lost_rules(c.rules@, missing)
    &&& s.nat == lost_nat(c.nat@, missing)
    &&& s.wireguard == lost_tunnels(c.vpn.wireguard@, missing)
    &&& s.carp == lost_vips(c.ha.carp_vips@, missing)
    &&& s.queues == lost_queues(c.queues@, missing)
    &&& s.rate_limits == lost_limits(c.rate_limits@, missing)
    &&& s.pfsync == (c.ha.pfsync is Some && missing.contains(c.ha.pfsync->0.sync_interface@))
}

/// Counts, section by section, the entries that are dropped if the interfaces
/// `missing` stay without a mapping.
pub fn compute_drop_summary(cfg: &FirewallConfig, missing: &Vec<String>) -> (s: DropSummary)
    requires
        is_countable(*cfg),
    ensures
        is_drop_summary(s, *cfg, views(missing@)),
{
    let pfsync = match &cfg.ha.pfsync {
        Some(p) => list_contains(missing, p.sync_interface.as_str()),
        None => false,
    };
    DropSummary {
        rules: count_rules(&cfg.rules, missing),
        nat: count_nat(&cfg.nat, missing),
        wireguard: count_tunnels(&cfg.vpn.wireguard, missing),
        carp: count_vips(&cfg.ha.carp_vips, missing),
        queues: count_queues(&cfg.queues, missing),
        rate_limits: count_limits(&cfg.rate_limits, missing),
        pfsync,
    }
}

// ---------------------------------------------------------------------------
// Suggestions and the preview
// ---------------------------------------------------------------------------

/// An interface of this machine.
#[derive(Clone, Debug)]
pub struct InterfaceInfo {
    pub name: String,
    pub mac: Option<String>,
    pub ipv4: Option<String>,
    pub ipv6: Option<String>,
    /// `dhcp`, `static` or `none`.
    pub ipv4_mode: Option<String>,
    /// `up` or `down`.
    pub status: String,
}

/// `s` without the digits at its end.
pub open spec fn base_name(s: Seq<char>) -> Seq<char>
    decreases s.len(),
{
    if s.len() > 0 && is_digit(s.last()) {
        base_name(s.drop_last())
    } else {
        s
    }
}

/// An interface that stands for a port of the machine: no loopback, no log,
/// no synchronisation, no tunnel pseudo-interface.
pub open spec fn is_physical(name: Seq<char>) -> bool {
    !has_prefix(name, "lo"@) && !has_prefix(name, "pflog"@) && !has_prefix(name, "pfsync"@) && !has_prefix(name, "enc"@)
}

/// The first of `present` that is physical and has the name `base` but for its
/// number.
pub open spec fn first_of_kind(base: Seq<char>, present: Seq<InterfaceInfo>) -> Option<Seq<char>>
    decreases present.len(),
{
    if present.len() == 0 {
        None
    } else if is_physical(present[0].name@) && base_name(present[0].name@) == base {
        Some(present[0].name@)
    } else {
        first_of_kind(base, present.skip(1))
    }
}

/// The first of `present` that is physical.
pub open spec fn first_physical(present: Seq<InterfaceInfo>) -> Option<Seq<char>>
    decreases present.len(),
{
    if present.len() == 0 {
        None
    } else if is_physical(present[0].name@) {
        Some(present[0].name@)
    } else {
        first_physical(present.skip(1))
    }
}

/// The interface to suggest in place of `missing`: the first physical one of
/// the same kind, that is with the same name but for the number, or else the
/// first physical one.
pub open spec fn suggestion(missing: Seq<char>, present: Seq<InterfaceInfo>) -> Option<Seq<char>> {
    let like = first_of_kind(base_name(missing), present);
    if base_name(missing).len() > 0 && like is Some {
        like
    } else {
        first_physical(present)
    }
}

fn strip_digits(s: &str) -> (r: String)
    ensures
        r@ == base_name(s@),
{
    let v = chars_of(s);
    let mut n: usize = v.len();
    assert(v@.take(n as int) =~= v@);
    while n > 0 && '0' <= v[n - 1] && v[n - 1] <= '9'
        invariant
            n <= v@.len(),
            base_name(v@) == base_name(v@.take(n as int)),
        decreases n,
    {
        assert(v@.take(n as int).drop_last() =~= v@.take(n - 1));
        n = n - 1;
    }
    let r = text_between(&v, 0, n);
    assert(r@ =~= v@.take(n as int));
    r
}

fn physical(n: &str) -> (r: bool)
    ensures
        r == is_physical(n@),
{
    !starts_with(n, "lo") && !starts_with(n, "pflog") && !starts_with(n, "pfsync") && !starts_with(n, "enc")
}

fn find_kind(base: &str, present: &Vec<InterfaceInfo>) -> (r: Option<String>)
    ensures
        option_view(r) == first_of_kind(base@, present@),
{
    let mut i: usize = 0;
    assert(present@.skip(0) =~= present@);
    while i < present.len()
        invariant
            i <= present@.len(),
            first_of_kind(base@, present@) == first_of_kind(base@, present@.skip(i as int)),
        decreases present.len() - i,
    {
        assert(present@.skip(i as int)[0] == present@[i as int]);
        let kind = strip_digits(present[i].name.as_str());
        if physical(present[i].name.as_str()) && same(kind.as_str(), base) {
            return Some(present[i].name.clone());
        }
        assert(present@.skip(i as int).skip(1) =~= present@.skip(i + 1));
        i = i + 1;
    }
    None
}

fn find_physical(present: &Vec<InterfaceInfo>) -> (r: Option<String>)
    ensures
        option_view(r) == first_physical(present@),
{
    let mut i: usize = 0;
    assert(present@.skip(0) =~= present@);
    while i < present.len()
        invariant
            i <= present@.len(),
            first_physical(present@) == first_physical(present@.skip(i as int)),
        decreases present.len() - i,
    {
        assert(present@.skip(i as int)[0] == present@[i as int]);
        if physical(present[i].name.as_str()) {
            return Some(present[i].name.clone());
        }
        assert(present@.skip(i as int).skip(1) =~= present@.skip(i + 1));
        i = i + 1;
    }
    None
}

/// The interface to suggest in place of `missing`.
pub fn suggest_interface(missing: &str, present: &Vec<InterfaceInfo>) -> (r: Option<String>)
    ensures
        option_view(r) == suggestion(missing@, present@),
{
    let base = strip_digits(missing);
    if !base.as_str().is_empty() {
        match find_kind(base.as_str(), present) {
            Some(n) => {
                return Some(n);
            },
            None => {},
        }
    }
    find_physical(present)
}

/// What an import would meet on this machine.
pub struct ImportPreview {
    pub interfaces_found: Vec<String>,
    pub interfaces_missing: Vec<String>,
    pub interfaces_present: Vec<InterfaceInfo>,
    pub suggestions: StringHashMap<String>,
    /// What is dropped if every missing interface stays without a mapping.
    pub drop_summary_if_unmapped: DropSummary,
}

/// `x` is the name of an interface of this machine.
pub open spec fn is_present(x: Seq<char>, present: Seq<InterfaceInfo>) -> bool {
    exists|i: int| 0 <= i < present.len() && (#[trigger] present[i]).name@ == x
}

fn present_here(name: &str, present: &Vec<InterfaceInfo>) -> (r: bool)
    ensures
        r == is_present(name@, present@),
{
    let mut i: usize = 0;
    while i < present.len()
        invariant
            i <= present@.len(),
            forall|k: int| 0 <= k < i ==> (#[trigger] present@[k]).name@ != name@,
        decreases present.len() - i,
    {
        if same(present[i].name.as_str(), name) {
            assert(present@[i as int].name@ == name@);
            return true;
        }
        i = i + 1;
    }
    false
}

/// The names of `refs` that this machine lacks, in order.
pub open spec fn lacking(refs: Seq<Seq<char>>, present: Seq<InterfaceInfo>) -> Seq<Seq<char>>
    decreases refs.len(),
{
    if refs.len() == 0 {
        Seq::<Seq<char>>::empty()
    } else if is_present(refs.last(), present) {
        lacking(refs.drop_last(), present)
    } else {
        lacking(refs.drop_last(), present).push(refs.last())
    }
}

proof fn lemma_lacking(refs: Seq<Seq<char>>, present: Seq<InterfaceInfo>)
    ensures
        forall|x: Seq<char>| lacking(refs, present).contains(x) <==> refs.contains(x) && !is_present(x, present),
        is_ordered(refs) ==> is_ordered(lacking(refs, present)),
    decreases refs.len(),
{
    if refs.len() > 0 {
        let init = refs.drop_last();
        let last = refs.last();
        lemma_lacking(init, present);
        let r = lacking(refs, present);
        assert forall|x: Seq<char>| r.contains(x) <==> refs.contains(x) && !is_present(x, present) by {
            if refs.contains(x) {
                let k = choose|k: int| 0 <= k < refs.len() && refs[k] == x;
                if k < init.len() {
                    assert(init[k] == x);
                }
            }
            if init.contains(x) {
                let k = choose|k: int| 0 <= k < init.len() && init[k] == x;
                assert(refs[k] == x);
            }
            assert(refs[refs.len() - 1] == last);
            let p = lacking(init, present);
            if p.contains(x) {
                let k = choose|k: int| 0 <= k < p.len() && p[k] == x;
                assert(r[k] == x);
            }
            if x == last && !is_present(x, present) {
                assert(r[r.len() - 1] == x);
            }
            if r.contains(x) {
                let k = choose|k: int| 0 <= k < r.len() && r[k] == x;
                if k < p.len() {
                    assert(p[k] == x);
                }
            }
        }
        if is_ordered(refs) {
            assert(is_ordered(init)) by {
                assert forall|i: int, j: int| 0 <= i < j < init.len() implies before(#[trigger] init[i], #[trigger] init[j]) by {
                    assert(before(refs[i], refs[j]));
                }
            }
            let p = lacking(init, present);
            assert forall|i: int, j: int| 0 <= i < j < r.len() implies before(#[trigger] r[i], #[trigger] r[j]) by {
                if j < p.len() {
                    assert(before(p[i], p[j]));
                } else {
                    assert(p.contains(p[i]));
                    assert(init.contains(p[i]));
                    let k = choose|k: int| 0 <= k < init.len() && init[k] == p[i];
                    assert(before(refs[k], refs[refs.len() - 1]));
                }
            }
        }
    }
}

/// Builds the preview of an import: the interfaces that the configuration
/// names, those of them that this machine lacks, a suggestion for each, and
/// what is dropped if none of them gets a mapping.
pub fn build_import_preview(cfg: &FirewallConfig, present: Vec<InterfaceInfo>) -> (p: ImportPreview)
    requires
        is_countable(*cfg),
    ensures
        is_ordered(views(p.interfaces_found@)),
        forall|x: Seq<char>| views(p.interfaces_found@).contains(x) <==> refers_to(*cfg, x),
        is_ordered(views(p.interfaces_missing@)),
        forall|x: Seq<char>|
            views(p.interfaces_missing@).contains(x) <==> refers_to(*cfg, x) && !is_present(x, present@),
        p.interfaces_present == present,
        forall|x: Seq<char>|
            #[trigger] p.suggestions@.contains_key(x) <==> views(p.interfaces_missing@).contains(x) && suggestion(
                x,
                present@,
            ) is Some,
        forall|x: Seq<char>|
            p.suggestions@.contains_key(x) ==> suggestion(x, present@) == Some((#[trigger] p.suggestions@[x])@),
        is_drop_summary(p.drop_summary_if_unmapped, *cfg, views(p.interfaces_missing@)),
{
    let refs = collect_interface_refs(cfg);
    let ghost all = views(refs@);
    let mut missing: Vec<String> = Vec::new();
    let mut suggestions: StringHashMap<String> = StringHashMap::new();
    let mut i: usize = 0;
    assert(views(missing@) =~= lacking(all.take(0), present@));
    assert(forall|x: Seq<char>| !views(missing@).contains(x));
    while i < refs.len()
        invariant
            i <= refs@.len(),
            all == views(refs@),
            views(missing@) == lacking(all.take(i as int), present@),
            forall|x: Seq<char>|
                #[trigger] suggestions@.contains_key(x) <==> views(missing@).contains(x) && suggestion(
                    x,
                    present@,
                ) is Some,
            forall|x: Seq<char>|
                suggestions@.contains_key(x) ==> suggestion(x, present@) == Some((#[trigger] suggestions@[x])@),
        decreases refs.len() - i,
    {
        assert(all.take(i + 1).drop_last() =~= all.take(i as int));
        assert(all.take(i + 1).last() == refs@[i as int]@);
        if !present_here(refs[i].as_str(), &present) {
            let ghost before_missing = views(missing@);
            let ghost name = refs@[i as int]@;
            push_line(&mut missing, refs[i].clone());
            match suggest_interface(refs[i].as_str(), &present) {
                Some(s) => suggestions.insert(refs[i].clone(), s),
                None => {},
            }
            assert forall|x: Seq<char>|
                #[trigger] suggestions@.contains_key(x) <==> views(missing@).contains(x) && suggestion(
                    x,
                    present@,
                ) is Some by {
                assert(views(missing@) == before_missing.push(name));
                if before_missing.contains(x) {
                    let k = choose|k: int| 0 <= k < before_missing.len() && before_missing[k] == x;
                    assert(views(missing@)[k] == x);
                }
                assert(views(missing@)[before_missing.len() as int] == name);
                if views(missing@).contains(x) && x != name {
                    let k = choose|k: int| 0 <= k < views(missing@).len() && views(missing@)[k] == x;
                    assert(before_missing[k] == x);
                }
            }
        }
        i = i + 1;
    }
    proof {
        assert(all.take(refs@.len() as int) =~= all);
        lemma_lacking(all, present@);
    }
    let drop = compute_drop_summary(cfg, &missing);
    ImportPreview {
        interfaces_found: refs,
        interfaces_missing: missing,
        interfaces_present: present,
        suggestions,
        drop_summary_if_unmapped: drop,
    }
}

// ---------------------------------------------------------------------------
// Laws
// ---------------------------------------------------------------------------

proof fn lemma_rules_names_hold(v: Seq<RuleConfig>, x: Seq<char>)
    ensures
        rules_names(v).contains(x) <==> exists|i: int| 0 <= i < v.len() && (#[trigger] v[i]).interface is Some
            && v[i].interface->0@ == x,
    decreases v.len(),
{
    if v.len() > 0 {
        let t = v.drop_last();
        lemma_rules_names_hold(t, x);
        if v.last().interface is Some {
            crate::lists::push_holds(rules_names(t), v.last().interface->0@, x);
        }
        assert(v[v.len() - 1] == v.last());
        if exists|i: int| 0 <= i < t.len() && (#[trigger] t[i]).interface is Some && t[i].interface->0@ == x {
            let i = choose|i: int| 0 <= i < t.len() && (#[trigger] t[i]).interface is Some && t[i].interface->0@ == x;
            assert(t[i] == v[i]);
        }
        if exists|i: int| 0 <= i < v.len() && (#[trigger] v[i]).interface is Some && v[i].interface->0@ == x {
            let i = choose|i: int| 0 <= i < v.len() && (#[trigger] v[i]).interface is Some && v[i].interface->0@ == x;
            if i < t.len() {
                assert(t[i] == v[i]);
            }
        }
    }
}

proof fn lemma_nat_names_hold(v: Seq<NatRuleConfig>, x: Seq<char>)
    ensures
        nat_names(v).contains(x) <==> exists|i: int| 0 <= i < v.len() && (#[trigger] v[i]).interface@ == x,
    decreases v.len(),
{
    if v.len() > 0 {
        let t = v.drop_last();
        lemma_nat_names_hold(t, x);
        crate::lists::push_holds(nat_names(t), v.last().interface@, x);
        assert(v[v.len() - 1] == v.last());
        if exists|i: int| 0 <= i < t.len() && (#[trigger] t[i]).interface@ == x {
            let i = choose|i: int| 0 <= i < t.len() && (#[trigger] t[i]).interface@ == x;
            assert(t[i] == v[i]);
        }
        if exists|i: int| 0 <= i < v.len() && (#[trigger] v[i]).interface@ == x {
            let i = choose|i: int| 0 <= i < v.len() && (#[trigger] v[i]).interface@ == x;
            if i < t.len() {
                assert(t[i] == v[i]);
            }
        }
    }
}

proof fn lemma_tunnels_names_hold(v: Seq<WireguardTunnelConfig>, x: Seq<char>)
    ensures
        tunnels_names(v).contains(x) <==> exists|i: int| 0 <= i < v.len() && (#[trigger] v[i]).interface@ == x,
    decreases v.len(),
{
    if v.len() > 0 {
        let t = v.drop_last();
        lemma_tunnels_names_hold(t, x);
        crate::lists::push_holds(tunnels_names(t), v.last().interface@, x);
        assert(v[v.len() - 1] == v.last());
        if exists|i: int| 0 <= i < t.len() && (#[trigger] t[i]).interface@ == x {
            let i = choose|i: int| 0 <= i < t.len() && (#[trigger] t[i]).interface@ == x;
            assert(t[i] == v[i]);
        }
        if exists|i: int| 0 <= i < v.len() && (#[trigger] v[i]).interface@ == x {
            let i = choose|i: int| 0 <= i < v.len() && (#[trigger] v[i]).interface@ == x;
            if i < t.len() {
                assert(t[i] == v[i]);
            }
        }
    }
}

proof fn lemma_vips_names_hold(v: Seq<CarpVipConfig>, x: Seq<char>)
    ensures
        vips_names(v).contains(x) <==> exists|i: int| 0 <= i < v.len() && (#[trigger] v[i]).interface@ == x,
    decreases v.len(),
{
    if v.len() > 0 {
        let t = v.drop_last();
        lemma_vips_names_hold(t, x);
        crate::lists::push_holds(vips_names(t), v.last().interface@, x);
        assert(v[v.len() - 1] == v.last());
        if exists|i: int| 0 <= i < t.len() && (#[trigger] t[i]).interface@ == x {
            let i = choose|i: int| 0 <= i < t.len() && (#[trigger] t[i]).interface@ == x;
            assert(t[i] == v[i]);
        }
        if exists|i: int| 0 <= i < v.len() && (#[trigger] v[i]).interface@ == x {
            let i = choose|i: int| 0 <= i < v.len() && (#[trigger] v[i]).interface@ == x;
            if i < t.len() {
                assert(t[i] == v[i]);
            }
        }
    }
}

proof fn lemma_queues_names_hold(v: Seq<QueueConfigEntry>, x: Seq<char>)
    ensures
        queues_names(v).contains(x) <==> exists|i: int| 0 <= i < v.len() && (#[trigger] v[i]).interface@ == x,
    decreases v.len(),
{
    if v.len() > 0 {
        let t = v.drop_last();
        lemma_queues_names_hold(t, x);
        crate::lists::push_holds(queues_names(t), v.last().interface@, x);
        assert(v[v.len() - 1] == v.last());
        if exists|i: int| 0 <= i < t.len() && (#[trigger] t[i]).interface@ == x {
            let i = choose|i: int| 0 <= i < t.len() && (#[trigger] t[i]).interface@ == x;
            assert(t[i] == v[i]);
        }
        if exists|i: int| 0 <= i < v.len() && (#[trigger] v[i]).interface@ == x {
            let i = choose|i: int| 0 <= i < v.len() && (#[trigger] v[i]).interface@ == x;
            if i < t.len() {
                assert(t[i] == v[i]);
            }
        }
    }
}

proof fn lemma_limits_names_hold(v: Seq<RateLimitEntry>, x: Seq<char>)
    ensures
        limits_names(v).contains(x) <==> exists|i: int| 0 <= i < v.len() && (#[trigger] v[i]).interface is Some
            && v[i].interface->0@ == x,
    decreases v.len(),
{
    if v.len() > 0 {
        let t = v.drop_last();
        lemma_limits_names_hold(t, x);
        if v.last().interface is Some {
            crate::lists::push_holds(limits_names(t), v.last().interface->0@, x);
        }
        assert(v[v.len() - 1] == v.last());
        if exists|i: int| 0 <= i < t.len() && (#[trigger] t[i]).interface is Some && t[i].interface->0@ == x {
            let i = choose|i: int| 0 <= i < t.len() && (#[trigger] t[i]).interface is Some && t[i].interface->0@ == x;
            assert(t[i] == v[i]);
        }
        if exists|i: int| 0 <= i < v.len() && (#[trigger] v[i]).interface is Some && v[i].interface->0@ == x {
            let i = choose|i: int| 0 <= i < v.len() && (#[trigger] v[i]).interface is Some && v[i].interface->0@ == x;
            if i < t.len() {
                assert(t[i] == v[i]);
            }
        }
    }
}

proof fn lemma_routes_names_hold(v: Seq<StaticRouteConfig>, x: Seq<char>)
    ensures
        routes_names(v).contains(x) <==> exists|i: int| 0 <= i < v.len() && (#[trigger] v[i]).interface is Some
            && v[i].interface->0@ == x,
    decreases v.len(),
{
    if v.len() > 0 {
        let t = v.drop_last();
        lemma_routes_names_hold(t, x);
        if v.last().interface is Some {
            crate::lists::push_holds(routes_names(t), v.last().interface->0@, x);
        }
        assert(v[v.len() - 1] == v.last());
        if exists|i: int| 0 <= i < t.len() && (#[trigger] t[i]).interface is Some && t[i].interface->0@ == x {
            let i = choose|i: int| 0 <= i < t.len() && (#[trigger] t[i]).interface is Some && t[i].interface->0@ == x;
            assert(t[i] == v[i]);
        }
        if exists|i: int| 0 <= i < v.len() && (#[trigger] v[i]).interface is Some && v[i].interface->0@ == x {
            let i = choose|i: int| 0 <= i < v.len() && (#[trigger] v[i]).interface is Some && v[i].interface->0@ == x;
            if i < t.len() {
                assert(t[i] == v[i]);
            }
        }
    }
}

/// A configuration refers to the interfaces of its rules, translations, tunnels,
/// shared addresses, queues, limits and routes, and to the one over which states
/// are synchronised; to no other.
pub proof fn references_of_a_configuration(c: FirewallConfig, x: Seq<char>)
    ensures
        refers_to(c, x) <==> {
            ||| exists|i: int| 0 <= i < c.rules@.len() && (#[trigger] c.rules@[i]).interface is Some
                && c.rules@[i].interface->0@ == x
            ||| exists|i: int| 0 <= i < c.nat@.len() && (#[trigger] c.nat@[i]).interface@ == x
            ||| exists|i: int| 0 <= i < c.vpn.wireguard@.len() && (#[trigger] c.vpn.wireguard@[i]).interface@ == x
            ||| exists|i: int| 0 <= i < c.ha.carp_vips@.len() && (#[trigger] c.ha.carp_vips@[i]).interface@ == x
            ||| c.ha.pfsync is Some && c.ha.pfsync->0.sync_interface@ == x
            ||| exists|i: int| 0 <= i < c.queues@.len() && (#[trigger] c.queues@[i]).interface@ == x
            ||| exists|i: int|
                0 <= i < c.rate_limits@.len() && (#[trigger] c.rate_limits@[i]).interface is Some
                    && c.rate_limits@[i].interface->0@ == x
            ||| exists|i: int|
                0 <= i < c.static_routes@.len() && (#[trigger] c.static_routes@[i]).interface is Some
                    && c.static_routes@[i].interface->0@ == x
        },
{
    lemma_rules_names_hold(c.rules@, x);
    lemma_nat_names_hold(c.nat@, x);
    lemma_tunnels_names_hold(c.vpn.wireguard@, x);
    lemma_vips_names_hold(c.ha.carp_vips@, x);
    lemma_queues_names_hold(c.queues@, x);
    lemma_limits_names_hold(c.rate_limits@, x);
    lemma_routes_names_hold(c.static_routes@, x);
    let p = pfsync_names(c.ha.pfsync);
    if c.ha.pfsync is Some {
        assert(p[0] == c.ha.pfsync->0.sync_interface@);
    }
    let a = rules_names(c.rules@);
    let b = a + nat_names(c.nat@);
    let d = b + tunnels_names(c.vpn.wireguard@);
    let e = d + vips_names(c.ha.carp_vips@);
    let f = e + p;
    let g = f + queues_names(c.queues@);
    let h = g + limits_names(c.rate_limits@);
    crate::lists::append_holds(a, nat_names(c.nat@), x);
    crate::lists::append_holds(b, tunnels_names(c.vpn.wireguard@), x);
    crate::lists::append_holds(d, vips_names(c.ha.carp_vips@), x);
    crate::lists::append_holds(e, p, x);
    crate::lists::append_holds(f, queues_names(c.queues@), x);
    crate::lists::append_holds(g, limits_names(c.rate_limits@), x);
    crate::lists::append_holds(h, routes_names(c.static_routes@), x);
}

/// The rules that are lost are counted one by one: each that is on a missing
/// interface, and no other.
pub proof fn lost_rules_are_counted(a: Seq<RuleConfig>, b: Seq<RuleConfig>, x: RuleConfig, missing: Seq<Seq<char>>)
    ensures
        lost_rules(Seq::<RuleConfig>::empty(), missing) == 0,
        lost_rules(a + b, missing) == lost_rules(a, missing) + lost_rules(b, missing),
        x.interface is Some && missing.contains(x.interface->0@)
            ==> lost_rules(Seq::<RuleConfig>::empty().push(x), missing) == 1,
        !(x.interface is Some && missing.contains(x.interface->0@))
            ==> lost_rules(Seq::<RuleConfig>::empty().push(x), missing) == 0,
    decreases b.len(),
{
    reveal_with_fuel(lost_rules, 2);
    assert(Seq::<RuleConfig>::empty().push(x).drop_last() =~= Seq::<RuleConfig>::empty());
    if b.len() == 0 {
        assert(a + b =~= a);
    } else {
        assert((a + b).drop_last() =~= a + b.drop_last());
        lost_rules_are_counted(a, b.drop_last(), x, missing);
    }
}

/// The translations that are lost are counted one by one: each that is on a missing
/// interface, and no other.
pub proof fn lost_nat_are_counted(a: Seq<NatRuleConfig>, b: Seq<NatRuleConfig>, x: NatRuleConfig,
    missing: Seq<Seq<char>>)
    ensures
        lost_nat(Seq::<NatRuleConfig>::empty(), missing) == 0,
        lost_nat(a + b, missing) == lost_nat(a, missing) + lost_nat(b, missing),
        missing.contains(x.interface@) ==> lost_nat(Seq::<NatRuleConfig>::empty().push(x), missing) == 1,
        !(missing.contains(x.interface@)) ==> lost_nat(Seq::<NatRuleConfig>::empty().push(x), missing) == 0,
    decreases b.len(),
{
    reveal_with_fuel(lost_nat, 2);
    assert(Seq::<NatRuleConfig>::empty().push(x).drop_last() =~= Seq::<NatRuleConfig>::empty());
    if b.len() == 0 {
        assert(a + b =~= a);
    } else {
        assert((a + b).drop_last() =~= a + b.drop_last());
        lost_nat_are_counted(a, b.drop_last(), x, missing);
    }
}

/// The tunnels that are lost are counted one by one: each that is on a missing
/// interface, and no other.
pub proof fn lost_tunnels_are_counted(a: Seq<WireguardTunnelConfig>, b: Seq<WireguardTunnelConfig>,
    x: WireguardTunnelConfig, missing: Seq<Seq<char>>)
    ensures
        lost_tunnels(Seq::<WireguardTunnelConfig>::empty(), missing) == 0,
        lost_tunnels(a + b, missing) == lost_tunnels(a, missing) + lost_tunnels(b, missing),
        missing.contains(x.interface@) ==> lost_tunnels(Seq::<WireguardTunnelConfig>::empty().push(x), missing) == 1,
        !(missing.contains(x.interface@)) ==> lost_tunnels(Seq::<WireguardTunnelConfig>::empty().push(x), missing) == 0,
    decreases b.len(),
{
    reveal_with_fuel(lost_tunnels, 2);
    assert(Seq::<WireguardTunnelConfig>::empty().push(x).drop_last() =~= Seq::<WireguardTunnelConfig>::empty());
    if b.len() == 0 {
        assert(a + b =~= a);
    } else {
        assert((a + b).drop_last() =~= a + b.drop_last());
        lost_tunnels_are_counted(a, b.drop_last(), x, missing);
    }
}

/// The shared addresses that are lost are counted one by one: each that is on a missing
/// interface, and no other.
pub proof fn lost_vips_are_counted(a: Seq<CarpVipConfig>, b: Seq<CarpVipConfig>, x: CarpVipConfig,
    missing: Seq<Seq<char>>)
    ensures
        lost_vips(Seq::<CarpVipConfig>::empty(), missing) == 0,
        lost_vips(a + b, missing) == lost_vips(a, missing) + lost_vips(b, missing),
        missing.contains(x.interface@) ==> lost_vips(Seq::<CarpVipConfig>::empty().push(x), missing) == 1,
        !(missing.contains(x.interface@)) ==> lost_vips(Seq::<CarpVipConfig>::empty().push(x), missing) == 0,
    decreases b.len(),
{
    reveal_with_fuel(lost_vips, 2);
    assert(Seq::<CarpVipConfig>::empty().push(x).drop_last() =~= Seq::<CarpVipConfig>::empty());
    if b.len() == 0 {
        assert(a + b =~= a);
    } else {
        assert((a + b).drop_last() =~= a + b.drop_last());
        lost_vips_are_counted(a, b.drop_last(), x, missing);
    }
}

/// The queues that are lost are counted one by one: each that is on a missing
/// interface, and no other.
pub proof fn lost_queues_are_counted(a: Seq<QueueConfigEntry>, b: Seq<QueueConfigEntry>, x: QueueConfigEntry,
    missing: Seq<Seq<char>>)
    ensures
        lost_queues(Seq::<QueueConfigEntry>::empty(), missing) == 0,
        lost_queues(a + b, missing) == lost_queues(a, missing) + lost_queues(b, missing),
        missing.contains(x.interface@) ==> lost_queues(Seq::<QueueConfigEntry>::empty().push(x), missing) == 1,
        !(missing.contains(x.interface@)) ==> lost_queues(Seq::<QueueConfigEntry>::empty().push(x), missing) == 0,
    decreases b.len(),
{
    reveal_with_fuel(lost_queues, 2);
    assert(Seq::<QueueConfigEntry>::empty().push(x).drop_last() =~= Seq::<QueueConfigEntry>::empty());
    if b.len() == 0 {
        assert(a + b =~= a);
    } else {
        assert((a + b).drop_last() =~= a + b.drop_last());
        lost_queues_are_counted(a, b.drop_last(), x, missing);
    }
}

/// The rate limits that are lost are counted one by one: each that is on a missing
/// interface, and no other.
pub proof fn lost_limits_are_counted(a: Seq<RateLimitEntry>, b: Seq<RateLimitEntry>, x: RateLimitEntry,
    missing: Seq<Seq<char>>)
    ensures
        lost_limits(Seq::<RateLimitEntry>::empty(), missing) == 0,
        lost_limits(a + b, missing) == lost_limits(a, missing) + lost_limits(b, missing),
        x.interface is Some && missing.contains(x.interface->0@)
            ==> lost_limits(Seq::<RateLimitEntry>::empty().push(x), missing) == 1,
        !(x.interface is Some && missing.contains(x.interface->0@))
            ==> lost_limits(Seq::<RateLimitEntry>::empty().push(x), missing) == 0,
    decreases b.len(),
{
    reveal_with_fuel(lost_limits, 2);
    assert(Seq::<RateLimitEntry>::empty().push(x).drop_last() =~= Seq::<RateLimitEntry>::empty());
    if b.len() == 0 {
        assert(a + b =~= a);
    } else {
        assert((a + b).drop_last() =~= a + b.drop_last());
        lost_limits_are_counted(a, b.drop_last(), x, missing);
    }
}

/// The summary counts what is lost of each kind, under its kind.
pub proof fn summary_counts_by_kind(s: DropSummary, c: FirewallConfig, missing: Seq<Seq<char>>)
    requires
        is_drop_summary(s, c, missing),
    ensures
        s.rules == lost_rules(c.rules@, missing),
        s.nat == lost_nat(c.nat@, missing),
        s.wireguard == lost_tunnels(c.vpn.wireguard@, missing),
        s.carp == lost_vips(c.ha.carp_vips@, missing),
        s.queues == lost_queues(c.queues@, missing),
        s.rate_limits == lost_limits(c.rate_limits@, missing),
        s.pfsync <==> c.ha.pfsync is Some && missing.contains(c.ha.pfsync->0.sync_interface@),
{
}

/// What is lacking is what is referred to and not present, in the order of the
/// references.
pub proof fn lacking_is_what_is_not_present(a: Seq<Seq<char>>, b: Seq<Seq<char>>, x: Seq<char>,
    present: Seq<InterfaceInfo>)
    ensures
        lacking(Seq::<Seq<char>>::empty(), present) == Seq::<Seq<char>>::empty(),
        lacking(a + b, present) == lacking(a, present) + lacking(b, present),
        (exists|i: int| 0 <= i < present.len() && (#[trigger] present[i]).name@ == x) ==> lacking(
            Seq::<Seq<char>>::empty().push(x),
            present,
        ) == Seq::<Seq<char>>::empty(),
        !(exists|i: int| 0 <= i < present.len() && (#[trigger] present[i]).name@ == x) ==> lacking(
            Seq::<Seq<char>>::empty().push(x),
            present,
        ) == Seq::<Seq<char>>::empty().push(x),
    decreases b.len(),
{
    reveal_with_fuel(lacking, 2);
    assert(Seq::<Seq<char>>::empty().push(x).drop_last() =~= Seq::<Seq<char>>::empty());
    if b.len() == 0 {
        assert(a + b =~= a);
        assert(lacking(a, present) + lacking(b, present) =~= lacking(a, present));
    } else {
        assert((a + b).drop_last() =~= a + b.drop_last());
        lacking_is_what_is_not_present(a, b.drop_last(), x, present);
        assert(lacking(a + b, present) =~= lacking(a, present) + lacking(b, present));
    }
}

/// The names are sorted as words are: a name stands before every longer one that
/// starts with it, and the first character that differs decides.
pub proof fn names_are_sorted_as_words(p: Seq<char>, x: char, y: char, s: Seq<char>, t: Seq<char>)
    ensures
        !before(p, p),
        before(p, p + seq![x] + s),
        !before(p + seq![x] + s, p),
        x < y ==> before(p + seq![x] + s, p + seq![y] + t) && !before(p + seq![y] + t, p + seq![x] + s),
    decreases p.len(),
{
    let a = p + seq![x] + s;
    let b = p + seq![y] + t;
    if p.len() > 0 {
        names_are_sorted_as_words(p.skip(1), x, y, s, t);
        assert(a.skip(1) =~= p.skip(1) + seq![x] + s);
        assert(b.skip(1) =~= p.skip(1) + seq![y] + t);
        assert(a[0] == p[0] && b[0] == p[0]);
    } else {
        assert(a[0] == x && b[0] == y);
    }
}

/// The base of a name is the name without the number at its end.
pub proof fn base_is_the_name_without_its_number(b: Seq<char>, n: Seq<char>)
    requires
        b.len() == 0 || !is_digit(b.last()),
        forall|i: int| 0 <= i < n.len() ==> is_digit(#[trigger] n[i]),
    ensures
        base_name(b + n) == b,
    decreases n.len(),
{
    if n.len() == 0 {
        assert(b + n =~= b);
    } else {
        let t = n.drop_last();
        assert forall|i: int| 0 <= i < t.len() implies is_digit(#[trigger] t[i]) by {
            assert(t[i] == n[i]);
        }
        base_is_the_name_without_its_number(b, t);
        assert((b + n).drop_last() =~= b + t);
        assert((b + n).last() == n[n.len() - 1]);
    }
}

/// Loopback, log, synchronisation and encapsulation interfaces stand for no
/// other one.
pub proof fn interfaces_that_stand_for_none(name: Seq<char>)
    ensures
        has_prefix(name, "lo"@) || has_prefix(name, "pflog"@) || has_prefix(name, "pfsync"@) || has_prefix(name, "enc"@)
            <==> !is_physical(name),
{
}

proof fn lemma_first_of_kind(base: Seq<char>, present: Seq<InterfaceInfo>, i: int)
    requires
        0 <= i < present.len(),
        is_physical(present[i].name@),
        base_name(present[i].name@) == base,
        forall|j: int|
            0 <= j < i ==> !(is_physical((#[trigger] present[j]).name@) && base_name(present[j].name@) == base),
    ensures
        first_of_kind(base, present) == Some(present[i].name@),
    decreases i,
{
    if i > 0 {
        assert(!(is_physical(present[0].name@) && base_name(present[0].name@) == base));
        let t = present.skip(1);
        assert(t[i - 1] == present[i]);
        assert forall|j: int| 0 <= j < i - 1 implies !(is_physical((#[trigger] t[j]).name@)
            && base_name(t[j].name@) == base) by {
            assert(t[j] == present[j + 1]);
        }
        lemma_first_of_kind(base, t, i - 1);
    }
}

proof fn lemma_none_of_kind(base: Seq<char>, present: Seq<InterfaceInfo>)
    requires
        forall|j: int|
            0 <= j < present.len() ==> !(is_physical((#[trigger] present[j]).name@)
                && base_name(present[j].name@) == base),
    ensures
        first_of_kind(base, present) is None,
    decreases present.len(),
{
    if present.len() > 0 {
        assert(!(is_physical(present[0].name@) && base_name(present[0].name@) == base));
        let t = present.skip(1);
        assert forall|j: int| 0 <= j < t.len() implies !(is_physical((#[trigger] t[j]).name@)
            && base_name(t[j].name@) == base) by {
            assert(t[j] == present[j + 1]);
        }
        lemma_none_of_kind(base, t);
    }
}

proof fn lemma_first_physical(present: Seq<InterfaceInfo>, i: int)
    requires
        0 <= i < present.len(),
        is_physical(present[i].name@),
        forall|j: int| 0 <= j < i ==> !is_physical((#[trigger] present[j]).name@),
    ensures
        first_physical(present) == Some(present[i].name@),
    decreases i,
{
    if i > 0 {
        assert(!is_physical(present[0].name@));
        let t = present.skip(1);
        assert(t[i - 1] == present[i]);
        assert forall|j: int| 0 <= j < i - 1 implies !is_physical((#[trigger] t[j]).name@) by {
            assert(t[j] == present[j + 1]);
        }
        lemma_first_physical(t, i - 1);
    }
}

proof fn lemma_none_physical(present: Seq<InterfaceInfo>)
    requires
        forall|j: int| 0 <= j < present.len() ==> !is_physical((#[trigger] present[j]).name@),
    ensures
        first_physical(present) is None,
    decreases present.len(),
{
    if present.len() > 0 {
        assert(!is_physical(present[0].name@));
        let t = present.skip(1);
        assert forall|j: int| 0 <= j < t.len() implies !is_physical((#[trigger] t[j]).name@) by {
            assert(t[j] == present[j + 1]);
        }
        lemma_none_physical(t);
    }
}

/// The first interface with the same base stands for a missing one; where there
/// is none, the first that stands for anything does; where there is none
/// either, nothing is suggested.
pub proof fn interface_of_the_same_base_is_suggested(missing: Seq<char>, present: Seq<InterfaceInfo>, i: int)
    ensures
        base_name(missing).len() > 0 && 0 <= i < present.len() && is_physical(present[i].name@)
            && base_name(present[i].name@)
            == base_name(missing) && (forall|j: int|
            0 <= j < i ==> !(is_physical((#[trigger] present[j]).name@)
                && base_name(present[j].name@) == base_name(missing)))
            ==> suggestion(missing, present) == Some(present[i].name@),
        (base_name(missing).len() == 0 || (forall|j: int|
            0 <= j < present.len() ==> !(is_physical((#[trigger] present[j]).name@)
                && base_name(present[j].name@) == base_name(
                missing,
            )))) && 0 <= i < present.len() && is_physical(present[i].name@) && (forall|j: int|
            0 <= j < i ==> !is_physical((#[trigger] present[j]).name@))
                ==> suggestion(missing, present) == Some(present[i].name@),
        (forall|j: int| 0 <= j < present.len() ==> !is_physical((#[trigger] present[j]).name@))
            ==> suggestion(missing, present) is None,
{
    let base = base_name(missing);
    if 0 <= i < present.len() && is_physical(present[i].name@) && base_name(present[i].name@) == base && (forall|j: int|
        0 <= j < i ==> !(is_physical((#[trigger] present[j]).name@) && base_name(present[j].name@) == base)) {
        lemma_first_of_kind(base, present, i);
    }
    if forall|j: int|
        0 <= j < present.len() ==> !(is_physical((#[trigger] present[j]).name@)
            && base_name(present[j].name@) == base) {
        lemma_none_of_kind(base, present);
    }
    if 0 <= i < present.len() && is_physical(present[i].name@) && (forall|j: int|
        0 <= j < i ==> !is_physical((#[trigger] present[j]).name@)) {
        lemma_first_physical(present, i);
    }
    if forall|j: int| 0 <= j < present.len() ==> !is_physical((#[trigger] present[j]).name@) {
        lemma_none_physical(present);
        lemma_none_of_kind(base, present);
    }
}

/// Where an entry goes: to the name that the map gives, to its own where the map
/// says nothing, and nowhere where the map drops it.
pub proof fn map_decides_where_entries_go(name: String, m: Map<Seq<char>, Option<String>>, t: String)
    ensures
        !m.contains_key(name@) ==> mapped(name@, m) == Some(name@) && placed(Some(name), m) == Some(Some(name@)),
        m.contains_key(name@) && m[name@] == Some(t) ==> mapped(name@, m) == Some(t@)
            && placed(Some(name), m) == Some(Some(t@)),
        m.contains_key(name@) && m[name@] is None ==> mapped(name@, m) is None && placed(Some(name), m) is None,
        placed(None, m) == Some(None::<Seq<char>>),
{
}

} // verus!
