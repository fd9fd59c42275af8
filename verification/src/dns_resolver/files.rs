//! Which files a backend needs, and where they go.

use vstd::prelude::*;

use crate::dns_resolver::names::{name_chars_only, sanitize_zone_filename};
use crate::dns_resolver::rdns::{files, ZoneFile};
use crate::text::cat2;

verus! {

/// A step in putting a backend's files in place.
#[derive(Clone, Debug)]
pub enum FileOp {
    /// Delete the zone files of an earlier configuration.
    DeleteZones,
    /// Write `content` to `tmp`, install it at `dest`, remove `tmp`.
    Install { tmp: String, dest: String, content: String },
    /// Delete the file at `dest`.
    Remove { dest: String },
}

/// The value of a [`FileOp`].
pub enum FileStep {
    DeleteZones,
    Install(Seq<char>, Seq<char>, Seq<char>),
    Remove(Seq<char>),
}

impl View for FileOp {
    type V = FileStep;

    open spec fn view(&self) -> FileStep {
        match *self {
            FileOp::DeleteZones => FileStep::DeleteZones,
            FileOp::Install { tmp, dest, content } => FileStep::Install(tmp@, dest@, content@),
            FileOp::Remove { dest } => FileStep::Remove(dest@),
        }
    }
}

/// The values of a list of operations.
pub open spec fn steps(v: Seq<FileOp>) -> Seq<FileStep> {
    Seq::new(v.len(), |i: int| v[i]@)
}

/// The operations for the zone files: a file whose name has no usable
/// character is left out.
pub open spec fn zone_steps(zones: Seq<(Seq<char>, Seq<char>)>) -> Seq<FileStep>
    decreases zones.len(),
{
    if zones.len() == 0 {
        Seq::<FileStep>::empty()
    } else {
        let init = zone_steps(zones.drop_last());
        let safe = name_chars_only(zones.last().0);
        if safe.len() == 0 {
            init
        } else {
            init.push(
                FileStep::Install(
                    "/tmp/aifw_zone_"@ + safe,
                    "/usr/local/etc/rdns/zones/"@ + safe,
                    zones.last().1,
                ),
            )
        }
    }
}

/// The operations that put the files of `unbound` in place.
pub open spec fn unbound_steps(conf: Seq<char>) -> Seq<FileStep> {
    Seq::<FileStep>::empty().push(FileStep::Install("/tmp/aifw_unbound.conf"@, "/var/unbound/unbound.conf"@, conf))
}

/// The operations that put the files of `rdns` in place: the configuration,
/// the zones in place of the old ones, the policy zone of the hosts or its
/// removal, and the policy zone of the block lists where there is one.
pub open spec fn rdns_steps(
    conf: Seq<char>,
    zones: Seq<(Seq<char>, Seq<char>)>,
    hosts_rpz: Option<Seq<char>>,
    blocklist_rpz: Option<Seq<char>>,
) -> Seq<FileStep> {
    let l = Seq::<FileStep>::empty().push(
        FileStep::Install("/tmp/aifw_rdns.toml"@, "/usr/local/etc/rdns/rdns.toml"@, conf),
    ).push(FileStep::DeleteZones);
    let l = l + zone_steps(zones);
    let l = match hosts_rpz {
        Some(t) => l.push(FileStep::Install("/tmp/aifw_rpz_hosts.rpz"@, "/usr/local/etc/rdns/rpz/hosts.rpz"@, t)),
        None => l.push(FileStep::Remove("/usr/local/etc/rdns/rpz/hosts.rpz"@)),
    };
    match blocklist_rpz {
        Some(t) => l.push(
            FileStep::Install("/tmp/aifw_rpz_blocklist.rpz"@, "/usr/local/etc/rdns/rpz/blocklist.rpz"@, t),
        ),
        None => l,
    }
}

fn push_op(v: &mut Vec<FileOp>, op: FileOp)
    ensures
        steps(final(v)@) == steps(old(v)@).push(op@),
{
    let ghost before = steps(v@);
    let ghost o = op@;
    v.push(op);
    assert(steps(v@) =~= before.push(o));
}

fn install(v: &mut Vec<FileOp>, tmp: &str, dest: &str, content: String)
    ensures
        steps(final(v)@) == steps(old(v)@).push(FileStep::Install(tmp@, dest@, content@)),
{
    push_op(v, FileOp::Install { tmp: tmp.to_owned(), dest: dest.to_owned(), content });
}

/// The operations for `unbound`.
pub fn unbound_files(conf: String) -> (r: Vec<FileOp>)
    ensures
        steps(r@) == unbound_steps(conf@),
{
    let mut r: Vec<FileOp> = Vec::new();
    assert(steps(r@) =~= Seq::<FileStep>::empty());
    install(&mut r, "/tmp/aifw_unbound.conf", "/var/unbound/unbound.conf", conf);
    r
}

/// The operations for `rdns`.
pub fn rdns_files(conf: String, zones: &Vec<ZoneFile>, hosts_rpz: Option<String>, blocklist_rpz: Option<String>) -> (r:
    Vec<FileOp>)
    ensures
        steps(r@) == rdns_steps(
            conf@,
            files(zones@),
            crate::kv::option_view(hosts_rpz),
            crate::kv::option_view(blocklist_rpz),
        ),
{
    let mut r: Vec<FileOp> = Vec::new();
    assert(steps(r@) =~= Seq::<FileStep>::empty());
    install(&mut r, "/tmp/aifw_rdns.toml", "/usr/local/etc/rdns/rdns.toml", conf);
    push_op(&mut r, FileOp::DeleteZones);
    let ghost before = steps(r@);
    let ghost all = files(zones@);
    let mut i: usize = 0;
    assert(before + zone_steps(all.take(0)) =~= before);
    while i < zones.len()
        invariant
            i <= zones@.len(),
            all == files(zones@),
            steps(r@) == before + zone_steps(all.take(i as int)),
        decreases zones.len() - i,
    {
        let ghost mid = zone_steps(all.take(i as int));
        assert(all.take(i + 1).drop_last() =~= all.take(i as int));
        assert(all.take(i + 1).last() == zones@[i as int]@);
        let safe = sanitize_zone_filename(zones[i].name.as_str());
        if !safe.as_str().is_empty() {
            let tmp = cat2("/tmp/aifw_zone_", safe.as_str());
            let dest = cat2("/usr/local/etc/rdns/zones/", safe.as_str());
            install(&mut r, tmp.as_str(), dest.as_str(), zones[i].content.clone());
            assert(steps(r@) =~= before + mid.push(
                FileStep::Install(tmp@, dest@, zones@[i as int].content@),
            ));
        }
        i = i + 1;
    }
    assert(all.take(zones@.len() as int) =~= all);
    match hosts_rpz {
        Some(t) => install(&mut r, "/tmp/aifw_rpz_hosts.rpz", "/usr/local/etc/rdns/rpz/hosts.rpz", t),
        None => push_op(&mut r, FileOp::Remove { dest: "/usr/local/etc/rdns/rpz/hosts.rpz".to_owned() }),
    }
    match blocklist_rpz {
        Some(t) => install(&mut r, "/tmp/aifw_rpz_blocklist.rpz", "/usr/local/etc/rdns/rpz/blocklist.rpz", t),
        None => {},
    }
    r
}

// ---------------------------------------------------------------------------
// Laws
// ---------------------------------------------------------------------------

/// The zones are installed one after the other.
pub proof fn zones_are_installed_in_order(a: Seq<(Seq<char>, Seq<char>)>, b: Seq<(Seq<char>, Seq<char>)>)
    ensures
        zone_steps(Seq::<(Seq<char>, Seq<char>)>::empty()) == Seq::<FileStep>::empty(),
        zone_steps(a + b) == zone_steps(a) + zone_steps(b),
    decreases b.len(),
{
    if b.len() == 0 {
        assert(a + b =~= a);
        assert(zone_steps(a) + zone_steps(b) =~= zone_steps(a));
    } else {
        assert((a + b).drop_last() =~= a + b.drop_last());
        zones_are_installed_in_order(a, b.drop_last());
        assert(zone_steps(a + b) =~= zone_steps(a) + zone_steps(b));
    }
}

/// A zone is installed under its name, with its content, by way of a file of its own; one with
/// no character that a file name takes is not.
pub proof fn zone_is_installed_under_its_name(z: (Seq<char>, Seq<char>))
    ensures
        name_chars_only(z.0).len() == 0 ==> zone_steps(Seq::<(Seq<char>, Seq<char>)>::empty().push(z)).len() == 0,
        name_chars_only(z.0).len() > 0 ==> zone_steps(Seq::<(Seq<char>,
            Seq<char>)>::empty().push(z)) == seq![FileStep::Install("/tmp/aifw_zone_"@ + name_chars_only(z.0),
            "/usr/local/etc/rdns/zones/"@ + name_chars_only(z.0), z.1)],
{
    reveal_with_fuel(zone_steps, 2);
    assert(Seq::<(Seq<char>, Seq<char>)>::empty().push(z).drop_last() =~= Seq::<(Seq<char>, Seq<char>)>::empty());
}

/// The settings of Unbound are one file.
pub proof fn unbound_has_one_file(conf: Seq<char>)
    ensures
        unbound_steps(conf) == seq![FileStep::Install("/tmp/aifw_unbound.conf"@, "/var/unbound/unbound.conf"@, conf)],
{
}

/// The settings of rDNS come first, then the old zones go and the new ones come, then the
/// policy of the hosts comes or goes, and the policy of the lists comes last where there is
/// one.
pub proof fn rdns_gets_its_files(conf: Seq<char>, zones: Seq<(Seq<char>, Seq<char>)>, h: Seq<char>, b: Seq<char>,
    hosts: Option<Seq<char>>, blocked: Option<Seq<char>>)
    ensures
        rdns_steps(conf, zones, hosts, blocked).len() >= 3 + zone_steps(zones).len(),
        rdns_steps(conf, zones, hosts, blocked)[0] == FileStep::Install("/tmp/aifw_rdns.toml"@,
            "/usr/local/etc/rdns/rdns.toml"@, conf),
        rdns_steps(conf, zones, hosts, blocked)[1] == FileStep::DeleteZones,
        rdns_steps(conf, zones, hosts, blocked).subrange(2, 2 + zone_steps(zones).len() as int) == zone_steps(zones),
        rdns_steps(conf, zones, Some(h), blocked)[2 + zone_steps(zones).len() as int]
            == FileStep::Install("/tmp/aifw_rpz_hosts.rpz"@, "/usr/local/etc/rdns/rpz/hosts.rpz"@, h),
        rdns_steps(conf, zones, None, blocked)[2 + zone_steps(zones).len() as int]
            == FileStep::Remove("/usr/local/etc/rdns/rpz/hosts.rpz"@),
        rdns_steps(conf, zones, hosts, None).len() == 3 + zone_steps(zones).len(),
        rdns_steps(conf, zones, hosts, Some(b)) == rdns_steps(conf, zones, hosts,
            None).push(FileStep::Install("/tmp/aifw_rpz_blocklist.rpz"@, "/usr/local/etc/rdns/rpz/blocklist.rpz"@, b)),
{
}

/// An operation on a file stands for the step with its values, each in its own place.
pub proof fn file_operations_hold_their_values(op: FileOp)
    ensures
        op is DeleteZones ==> op@ == FileStep::DeleteZones,
        op matches FileOp::Install { tmp, dest, content } ==> op@ == (FileStep::Install(tmp@, dest@, content@)),
        op matches FileOp::Remove { dest } ==> op@ == (FileStep::Remove(dest@)),
{
}

/// Operations stand for their steps one by one, in order.
pub proof fn file_operations_stay_in_order(v: Seq<FileOp>, i: int)
    ensures
        steps(v).len() == v.len(),
        0 <= i < v.len() ==> steps(v)[i] == v[i]@,
{
}

} // verus!
