//! The snapshot that one node of a cluster hands to the others.

use vstd::prelude::*;
use vstd::string::*;

use crate::backup::interfaces::InterfaceMap;
use crate::backup::model::FirewallConfig;
use crate::backup::plan::{all_live_steps, all_row_steps, apply_firewall_config, live_values, row_values, RestorePlan};
use crate::backup::validate::restorable;
use crate::number::{dec, fmt_u64};
use crate::status::Status;
use crate::text::cat2;

verus! {

/// What a snapshot carries.
#[derive(Clone, Debug)]
pub struct ClusterSnapshotPayload {
    pub firewall: FirewallConfig,
    pub ids_rule_overrides: Vec<IdsRuleOverride>,
    pub ids_suppressions: Vec<IdsSuppressionRecord>,
}

/// A change of one detection rule.
#[derive(Clone, Debug)]
pub struct IdsRuleOverride {
    pub id: String,
    pub enabled: bool,
    pub action_override: Option<String>,
}

/// A detection that is not reported.
#[derive(Clone, Debug)]
pub struct IdsSuppressionRecord {
    pub id: String,
    pub sid: i64,
    pub suppress_type: String,
    pub ip_cidr: Option<String>,
}

/// The rule differs from what it is by default.
pub open spec fn is_override(r: IdsRuleOverride) -> bool {
    !r.enabled || r.action_override is Some
}

/// The rules that differ from what they are by default, in order.
pub open spec fn overrides(v: Seq<IdsRuleOverride>) -> Seq<IdsRuleOverride>
    decreases v.len(),
{
    if v.len() == 0 {
        Seq::<IdsRuleOverride>::empty()
    } else if is_override(v.last()) {
        overrides(v.drop_last()).push(v.last())
    } else {
        overrides(v.drop_last())
    }
}

/// The snapshot of this node: its configuration, the detection rules that
/// were changed and the suppressions.
pub fn cluster_export_payload(
    firewall: FirewallConfig,
    ids_rules: &Vec<IdsRuleOverride>,
    ids_suppressions: Vec<IdsSuppressionRecord>,
) -> (p: ClusterSnapshotPayload)
    ensures
        p.firewall == firewall,
        p.ids_rule_overrides@ == overrides(ids_rules@),
        p.ids_suppressions == ids_suppressions,
{
    let mut kept: Vec<IdsRuleOverride> = Vec::new();
    let mut i: usize = 0;
    while i < ids_rules.len()
        invariant
            i <= ids_rules@.len(),
            kept@ == overrides(ids_rules@.take(i as int)),
        decreases ids_rules.len() - i,
    {
        assert(ids_rules@.take(i + 1).drop_last() =~= ids_rules@.take(i as int));
        let r = &ids_rules[i];
        if !r.enabled || r.action_override.is_some() {
            kept.push(
                IdsRuleOverride { id: r.id.clone(), enabled: r.enabled, action_override: r.action_override.clone() },
            );
        }
        i = i + 1;
    }
    assert(ids_rules@.take(ids_rules@.len() as int) =~= ids_rules@);
    ClusterSnapshotPayload { firewall, ids_rule_overrides: kept, ids_suppressions }
}

/// The credentials that this node keeps for a peer.
#[derive(Clone, Debug)]
pub struct PeerKeys {
    pub id: String,
    pub key: Option<String>,
    pub hash: Option<String>,
}

/// The node has a credential.
pub open spec fn has_credential(k: PeerKeys) -> bool {
    k.key is Some || k.hash is Some
}

/// The nodes with a credential, in order.
pub open spec fn with_credential(v: Seq<PeerKeys>) -> Seq<PeerKeys>
    decreases v.len(),
{
    if v.len() == 0 {
        Seq::<PeerKeys>::empty()
    } else if has_credential(v.last()) {
        with_credential(v.drop_last()).push(v.last())
    } else {
        with_credential(v.drop_last())
    }
}

fn keep_credentials(v: &Vec<PeerKeys>) -> (r: Vec<PeerKeys>)
    ensures
        r@ == with_credential(v@),
{
    let mut kept: Vec<PeerKeys> = Vec::new();
    let mut i: usize = 0;
    while i < v.len()
        invariant
            i <= v@.len(),
            kept@ == with_credential(v@.take(i as int)),
        decreases v.len() - i,
    {
        assert(v@.take(i + 1).drop_last() =~= v@.take(i as int));
        let k = &v[i];
        if k.key.is_some() || k.hash.is_some() {
            kept.push(PeerKeys { id: k.id.clone(), key: k.key.clone(), hash: k.hash.clone() });
        }
        i = i + 1;
    }
    assert(v@.take(v@.len() as int) =~= v@);
    kept
}

/// How a snapshot is applied: first the restore; then each credential is
/// written to the row of its node and each change to its detection rule,
/// where a failure is noted and passed over; then the suppressions are
/// replaced in one transaction; then the detection reloads.
#[derive(Clone, Debug)]
pub struct ClusterPlan<'a> {
    pub restore: RestorePlan<'a>,
    pub keys: Vec<PeerKeys>,
    pub rule_overrides: &'a Vec<IdsRuleOverride>,
    pub suppressions: &'a Vec<IdsSuppressionRecord>,
}

/// Plans how a snapshot is applied. `invalid` is what is wrong with the
/// configuration by its own rules, where something is; `saved` holds the
/// credentials of this node, which a snapshot never replaces.
pub fn apply_cluster_snapshot<'a>(
    payload: &'a ClusterSnapshotPayload,
    invalid: Option<String>,
    saved: &Vec<PeerKeys>,
) -> (r: Result<ClusterPlan<'a>, String>)
    ensures
        r is Ok <==> invalid is None && restorable(payload.firewall, Map::<Seq<char>, Option<String>>::empty()),
        r matches Ok(p) ==> {
            let none = Map::<Seq<char>, Option<String>>::empty();
            &&& row_values(p.restore.rows@) == all_row_steps(payload.firewall, none)
            &&& live_values(p.restore.live@) == all_live_steps(payload.firewall, none)
            &&& p.keys@ == with_credential(saved@)
            &&& p.rule_overrides == payload.ids_rule_overrides
            &&& p.suppressions == payload.ids_suppressions
        },
        r matches Err(e) ==> e@ == (match invalid {
            Some(w) => "snapshot failed validation: "@ + w@,
            None => restore_failure(Status::BadRequest),
        }),
{
    match invalid {
        Some(w) => {
            return Err(cat2("snapshot failed validation: ", w.as_str()));
        },
        None => {},
    }
    let map: InterfaceMap = InterfaceMap::new();
    assert(map@ =~= Map::<Seq<char>, Option<String>>::empty());
    match apply_firewall_config(&payload.firewall, &map) {
        Ok(restore) => Ok(
            ClusterPlan {
                restore,
                keys: keep_credentials(saved),
                rule_overrides: &payload.ids_rule_overrides,
                suppressions: &payload.ids_suppressions,
            },
        ),
        Err(s) => Err(restore_failed(s)),
    }
}

/// The report of a restore that ended with a status.
pub open spec fn restore_failure(s: Status) -> Seq<char> {
    "apply_firewall_config failed: "@ + dec(s.number() as nat)
}

/// The report of a restore that ended with a status.
pub fn restore_failed(s: Status) -> (r: String)
    ensures
        r@ == restore_failure(s),
{
    let code = s.code();
    let number = fmt_u64(code as u64);
    cat2("apply_firewall_config failed: ", number.as_str())
}

/// The credential columns of the nodes after `keys` have been written to them
/// in order; a node that has no row is passed over.
pub open spec fn credentials_after(
    nodes: Map<Seq<char>, (Option<String>, Option<String>)>,
    keys: Seq<PeerKeys>,
) -> Map<Seq<char>, (Option<String>, Option<String>)>
    decreases keys.len(),
{
    if keys.len() == 0 {
        nodes
    } else {
        let m = credentials_after(nodes, keys.drop_last());
        let k = keys.last();
        if m.dom().contains(k.id@) {
            m.insert(k.id@, (k.key, k.hash))
        } else {
            m
        }
    }
}

/// The nodes as a restore leaves them: without credentials.
pub open spec fn bare_nodes(ids: Set<Seq<char>>) -> Map<Seq<char>, (Option<String>, Option<String>)> {
    Map::new(|id: Seq<char>| ids.contains(id), |id: Seq<char>| (None::<String>, None::<String>))
}

/// No node occurs twice.
pub open spec fn ids_distinct(v: Seq<PeerKeys>) -> bool {
    forall|i: int, j: int| 0 <= i < j < v.len() ==> (#[trigger] v[i]).id@ != (#[trigger] v[j]).id@
}

/// A snapshot leaves the credentials of this node as they were: every node
/// that was there and is in the snapshot has the credentials that it had, and
/// a node that was not there has none.
pub proof fn local_credentials_survive(ids: Set<Seq<char>>, saved: Seq<PeerKeys>)
    requires
        ids_distinct(saved),
    ensures
        credentials_after(bare_nodes(ids), with_credential(saved)).dom() == ids,
        forall|i: int|
            0 <= i < saved.len() && ids.contains((#[trigger] saved[i]).id@) ==> credentials_after(
                bare_nodes(ids),
                with_credential(saved),
            )[saved[i].id@] == (saved[i].key, saved[i].hash),
        forall|id: Seq<char>|
            ids.contains(id) && (forall|i: int| 0 <= i < saved.len() ==> (#[trigger] saved[i]).id@ != id)
                ==> #[trigger] credentials_after(bare_nodes(ids), with_credential(saved))[id] == (
                None::<String>,
                None::<String>,
            ),
    decreases saved.len(),
{
    let m = credentials_after(bare_nodes(ids), with_credential(saved));
    if saved.len() == 0 {
        assert(m.dom() =~= ids);
    } else {
        let init = saved.drop_last();
        let k = saved.last();
        assert forall|i: int, j: int| 0 <= i < j < init.len() implies (#[trigger] init[i]).id@ != (#[trigger] init[j]).id@ by {
            assert(init[i] == saved[i] && init[j] == saved[j]);
        }
        local_credentials_survive(ids, init);
        let before = credentials_after(bare_nodes(ids), with_credential(init));
        if has_credential(k) {
            assert(with_credential(saved).drop_last() =~= with_credential(init));
            assert(with_credential(saved).last() == k);
        }
        assert(m.dom() =~= ids);
        assert forall|i: int| 0 <= i < init.len() implies (#[trigger] init[i]).id@ != k.id@ by {
            assert(init[i] == saved[i]);
            assert(saved[i].id@ != saved[saved.len() - 1].id@);
        }
        assert forall|i: int| 0 <= i < saved.len() && ids.contains((#[trigger] saved[i]).id@) implies m[saved[i].id@] == (
            saved[i].key,
            saved[i].hash,
        ) by {
            if i < saved.len() - 1 {
                assert(init[i] == saved[i]);
                assert(init[i].id@ != k.id@);
                assert(before[init[i].id@] == (init[i].key, init[i].hash));
            } else if !has_credential(k) {
                assert(before[k.id@] == (None::<String>, None::<String>));
            }
        }
        assert forall|id: Seq<char>|
            ids.contains(id) && (forall|i: int| 0 <= i < saved.len() ==> (#[trigger] saved[i]).id@ != id) implies
            #[trigger] m[id] == (None::<String>, None::<String>) by {
            assert(saved[saved.len() - 1].id@ != id);
            assert forall|i: int| 0 <= i < init.len() implies (#[trigger] init[i]).id@ != id by {
                assert(init[i] == saved[i]);
            }
            assert(before[id] == (None::<String>, None::<String>));
        }
    }
}

/// The other nodes are told of the detection rules that were changed, in their
/// order: those that are switched off or that act otherwise.
pub proof fn changed_rules_are_told(a: Seq<IdsRuleOverride>, b: Seq<IdsRuleOverride>, x: IdsRuleOverride)
    ensures
        overrides(Seq::<IdsRuleOverride>::empty()) == Seq::<IdsRuleOverride>::empty(),
        overrides(a + b) == overrides(a) + overrides(b),
        !x.enabled || x.action_override is Some ==> overrides(Seq::<IdsRuleOverride>::empty().push(x)) == Seq::<
            IdsRuleOverride,
        >::empty().push(x),
        x.enabled && x.action_override is None ==> overrides(Seq::<IdsRuleOverride>::empty().push(x)) == Seq::<
            IdsRuleOverride,
        >::empty(),
    decreases b.len(),
{
    reveal_with_fuel(overrides, 2);
    assert(Seq::<IdsRuleOverride>::empty().push(x).drop_last() =~= Seq::<IdsRuleOverride>::empty());
    if b.len() == 0 {
        assert(a + b =~= a);
        assert(overrides(a) + overrides(b) =~= overrides(a));
    } else {
        assert((a + b).drop_last() =~= a + b.drop_last());
        changed_rules_are_told(a, b.drop_last(), x);
        assert(overrides(a + b) =~= overrides(a) + overrides(b));
    }
}

/// The credentials of this node that are put back are all there are, in their
/// order.
pub proof fn credentials_are_put_back(a: Seq<PeerKeys>, b: Seq<PeerKeys>, x: PeerKeys)
    ensures
        with_credential(Seq::<PeerKeys>::empty()) == Seq::<PeerKeys>::empty(),
        with_credential(a + b) == with_credential(a) + with_credential(b),
        x.key is Some || x.hash is Some ==> with_credential(Seq::<PeerKeys>::empty().push(x))
            == Seq::<PeerKeys>::empty().push(x),
        x.key is None && x.hash is None ==> with_credential(Seq::<PeerKeys>::empty().push(x))
            == Seq::<PeerKeys>::empty(),
    decreases b.len(),
{
    reveal_with_fuel(with_credential, 2);
    assert(Seq::<PeerKeys>::empty().push(x).drop_last() =~= Seq::<PeerKeys>::empty());
    if b.len() == 0 {
        assert(a + b =~= a);
        assert(with_credential(a) + with_credential(b) =~= with_credential(a));
    } else {
        assert((a + b).drop_last() =~= a + b.drop_last());
        credentials_are_put_back(a, b.drop_last(), x);
        assert(with_credential(a + b) =~= with_credential(a) + with_credential(b));
    }
}

/// A snapshot that could not be applied says with which status that ended.
pub proof fn failure_names_its_status(s: Status)
    ensures
        restore_failure(s) == "apply_firewall_config failed: "@ + dec(s.number() as nat),
{
}

} // verus!
