//! The names of keys, and what they allow.

use vstd::prelude::*;

use crate::auth::cache::{Claims, User};
use crate::auth::middleware::{admitted, subject_of, Subject};
use crate::kv::option_view;
use crate::status::Status;
use crate::text::same;

verus! {

/// The name of the key by which another node of the cluster is known.
pub const CLUSTER_PEER_KEY: &'static str = "aifw-cluster-peer";

/// The name of the key by which the daemon of this node is known.
pub const DAEMON_LOOPBACK_KEY: &'static str = "aifw-daemon-loopback";

/// A key of that name stands for a node of the cluster.
pub open spec fn is_replication_key(name: Seq<char>) -> bool {
    name == CLUSTER_PEER_KEY@ || name == DAEMON_LOOPBACK_KEY@
}

fn replication_key(name: &str) -> (r: bool)
    ensures
        r == is_replication_key(name@),
{
    same(name, CLUSTER_PEER_KEY) || same(name, DAEMON_LOOPBACK_KEY)
}

/// Whether a user may give a new key that name. The names by which nodes are
/// known are reserved: a key with such a name would be let in as a node.
pub fn key_name_allowed(name: &str) -> (r: Result<(), Status>)
    ensures
        r is Err <==> name@ == "aifw-cluster-peer"@ || name@ == "aifw-daemon-loopback"@,
        r matches Err(s) ==> s == Status::BadRequest,
{
    if replication_key(name) {
        Err(Status::BadRequest)
    } else {
        Ok(())
    }
}

/// A caller with a key of that name, where there is a key, may push to this
/// node.
pub open spec fn may_replicate(key_name: Option<Seq<char>>) -> bool {
    key_name is Some && is_replication_key(key_name->0)
}

/// Whether a caller may push to this node: only with the key of a node, and
/// whatever else the caller may do.
pub fn replication_caller(key_name: Option<&str>) -> (r: Result<(), Status>)
    ensures
        r is Ok <==> (key_name is Some && is_replication_key(key_name->0@)),
        r matches Err(s) ==> s == Status::Forbidden,
{
    match key_name {
        Some(name) => if replication_key(name) {
            Ok(())
        } else {
            Err(Status::Forbidden)
        },
        None => Err(Status::Forbidden),
    }
}

/// A key that a user was allowed to make does not let its holder push to a
/// node.
pub proof fn made_keys_do_not_replicate(name: Seq<char>)
    requires
        name != "aifw-cluster-peer"@,
        name != "aifw-daemon-loopback"@,
    ensures
        !may_replicate(Some(name)),
{
}

/// Who is let in by a token may not push to a node, whatever the token carries
/// and whatever the user is allowed.
pub proof fn tokens_do_not_replicate(c: Claims, u: User, permissions: u64, role: String)
    ensures
        !may_replicate(option_view(admitted(subject_of(c), u, permissions, role).api_key_name)),
{
}

/// Who is let in by a key may push to a node exactly where it is the key of one.
pub proof fn keys_replicate_by_name(s: Subject, u: User, permissions: u64, role: String, name: String)
    requires
        s.api_key_name == Some(name),
    ensures
        may_replicate(option_view(admitted(s, u, permissions, role).api_key_name)) == is_replication_key(name@),
{
}

/// A request may replicate where its key is the one of the peers or the one of the daemon, and
/// under no other key or none.
pub proof fn replication_has_its_keys(name: Seq<char>)
    ensures
        may_replicate(Some("aifw-cluster-peer"@)),
        may_replicate(Some("aifw-daemon-loopback"@)),
        !may_replicate(None),
        name != "aifw-cluster-peer"@ && name != "aifw-daemon-loopback"@ ==> !may_replicate(Some(name)),
{
}

/// A caller replicates under a key of the replication, and is forbidden otherwise.
pub proof fn only_nodes_replicate(name: &str, r: Result<(), Status>)
    ensures
        call_ensures(replication_caller, (None::<&str>,), r) ==> r == Err::<(), Status>(Status::Forbidden),
        call_ensures(replication_caller, (Some(name),), r) ==> (r is Ok <==> name@ == "aifw-cluster-peer"@
            || name@ == "aifw-daemon-loopback"@),
        call_ensures(key_name_allowed, (name,), r) ==> (r is Err <==> name@ == "aifw-cluster-peer"@
            || name@ == "aifw-daemon-loopback"@),
{
}

} // verus!
