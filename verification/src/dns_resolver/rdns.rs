//! The configuration, zone and policy files of the `rdns` backend.

use vstd::prelude::*;
use vstd::string::*;

use crate::dns_resolver::config::{ResolverConfig, ResolverView};
use crate::dns_resolver::dns64::{dns64_prefix_ok, validate_dns64_prefix};
use crate::dns_resolver::records::{DomainOverride, HostOverride, Lease};
use crate::dns_resolver::unbound::{fqdn, host_fqdn};
use crate::kv::{bool_str, bool_text};
use crate::net::{ipv6_ok, is_ipv6};
use crate::number::{dec, fmt_u64};
use crate::text::{
    cat2, cat3, cat4, cat5, chars_of, ends_with, has_prefix, has_suffix, join, join_text, lines, lines_of,
    list_contains, lower_text, pad_right, padded, push_line, same, split, split_pieces, split_text, starts_with,
    text_between, trim, trim_end_char, trim_end_of, trimmed, unicode_lowercase, views, words, words_of, wrap_all,
    wrapped,
};

verus! {

// ---------------------------------------------------------------------------
// rdns.toml
// ---------------------------------------------------------------------------

/// The quoted listening addresses.
pub open spec fn listeners(c: ResolverView) -> Seq<char> {
    join(wrapped("\""@, c.listen_interfaces, ":"@ + dec(c.port as nat) + "\""@), ", "@)
}

/// The `forwarders` line of the resolver section.
pub open spec fn forwarders_line(c: ResolverView) -> Seq<char> {
    if c.forwarding_enabled && c.forwarding_servers.len() > 0 {
        "forwarders = ["@ + join(wrapped("\""@, c.forwarding_servers, "\""@), ", "@) + "]\n"@
    } else {
        "forwarders = []\n"@
    }
}

/// The DNS64 lines: only where DNS64 is on and its prefix is valid.
pub open spec fn dns64_lines(c: ResolverView) -> Seq<char> {
    if c.dns64 && dns64_prefix_ok(c.dns64_prefix) {
        "dns64 = true\ndns64_prefix = \""@ + c.dns64_prefix + "\"\n"@
    } else {
        Seq::<char>::empty()
    }
}

/// The query timeout line, where there is a timeout.
pub open spec fn timeout_line(c: ResolverView) -> Seq<char> {
    if c.query_timeout_ms > 0 {
        "query_timeout_ms = "@ + dec(c.query_timeout_ms as nat) + "\n"@
    } else {
        Seq::<char>::empty()
    }
}

/// An IPv6 address in square brackets, with or without a port behind it.
pub open spec fn is_bracketed(server: Seq<char>) -> bool {
    server.len() > 0 && server[0] == '[' && split(server.skip(1), ']').len() >= 2 && is_ipv6(
        split(server.skip(1), ']')[0],
    )
}

/// The address of an upstream resolver that may carry a port: an IPv6 address
/// is kept whole, and comes out of its brackets.
pub open spec fn server_address(server: Seq<char>) -> Seq<char> {
    if is_ipv6(server) {
        server
    } else if is_bracketed(server) {
        split(server.skip(1), ']')[0]
    } else {
        split(server, ':')[0]
    }
}

/// One forwarded domain.
pub open spec fn forward_zone(d: DomainOverride) -> Seq<char> {
    "[[resolver.forward_zones]]\nname = \""@ + d.domain@ + "\"\nforwarders = [\""@ + server_address(d.server@)
        + "\"]\n\n"@
}

/// The enabled overrides among `ds`, in order.
pub open spec fn enabled_domains(ds: Seq<DomainOverride>) -> Seq<DomainOverride>
    decreases ds.len(),
{
    if ds.len() == 0 {
        Seq::<DomainOverride>::empty()
    } else if ds.last().enabled {
        enabled_domains(ds.drop_last()).push(ds.last())
    } else {
        enabled_domains(ds.drop_last())
    }
}

/// The forwarded domains one behind the other.
pub open spec fn forward_zones(ds: Seq<DomainOverride>) -> Seq<char>
    decreases ds.len(),
{
    if ds.len() == 0 {
        Seq::<char>::empty()
    } else if ds.last().enabled {
        forward_zones(ds.drop_last()) + forward_zone(ds.last())
    } else {
        forward_zones(ds.drop_last())
    }
}

/// The block of forwarded domains, with a line feed in front where there is one.
pub open spec fn forward_block(ds: Seq<DomainOverride>) -> Seq<char> {
    if enabled_domains(ds).len() > 0 {
        "\n"@ + forward_zones(ds)
    } else {
        Seq::<char>::empty()
    }
}

/// Some host of `hs` is enabled.
pub open spec fn any_host(hs: Seq<HostOverride>) -> bool {
    exists|i: int| 0 <= i < hs.len() && (#[trigger] hs[i]).enabled
}

/// The policy zones: one for the hosts, one for the block lists.
pub open spec fn policy_lines(c: ResolverView, hosts: Seq<HostOverride>) -> Seq<char> {
    let h = if any_host(hosts) {
        "[[rpz.zones]]\nname = \"rpz.hosts\"\nfile = \"/usr/local/etc/rdns/rpz/hosts.rpz\"\n\n"@
    } else {
        Seq::<char>::empty()
    };
    let b = if c.blocklists_enabled && c.blocklist_urls.len() > 0 {
        "[[rpz.zones]]\nname = \"rpz.blocklist\"\nfile = \"/usr/local/etc/rdns/rpz/blocklist.rpz\"\n\n"@
    } else {
        Seq::<char>::empty()
    };
    h + b
}

/// The text of `rdns.toml`. The server answers with authority only where
/// there are hosts or leases to answer for.
pub open spec fn rdns_conf(c: ResolverView, hosts: Seq<HostOverride>, domains: Seq<DomainOverride>) -> Seq<char> {
    let need_auth = any_host(hosts) || c.register_dhcp;
    let mode = if need_auth {
        "both"@
    } else {
        "resolver"@
    };
    let authoritative = if need_auth {
        "[authoritative]\nsource = \"zone-files\"\ndirectory = \"/usr/local/etc/rdns/zones\"\n\n"@
    } else {
        "[authoritative]\nsource = \"none\"\n\n"@
    };
    let level = if c.log_verbosity >= 2 {
        "debug"@
    } else {
        "info"@
    };
    "# AiFw rDNS Configuration — Auto-generated\n\n"@ + "[server]\nmode = \""@ + mode
        + "\"\nuser = \"rdns\"\ngroup = \"rdns\"\npidfile = \"/dev/null\"\n\n"@ + "[listeners]\nudp = ["@ + listeners(c)
        + "]\ntcp = ["@ + listeners(c) + "]\n\n"@ + "[cache]\nmax_entries = 1000000\nmax_ttl = "@ + dec(
        c.cache_max_ttl as nat,
    ) + "\nmin_ttl = "@ + dec(c.cache_min_ttl as nat) + "\nnegative_ttl = 300\n\n"@ + "[resolver]\n"@ + forwarders_line(c)
        + "dnssec = "@ + bool_text(c.dnssec) + "\nqname_minimization = true\n"@ + dns64_lines(c) + timeout_line(c)
        + forward_block(domains) + "\n"@ + authoritative + "[control]\nsocket = \"/var/run/rdns/control.sock\"\n\n"@
        + "[metrics]\nenabled = true\naddress = \"127.0.0.1:9153\"\n\n"@ + "[logging]\nlevel = \""@ + level
        + "\"\nformat = \"text\"\nquery_log = "@ + bool_text(c.log_queries) + "\n\n"@
        + "[security]\nsandbox = false\nrate_limit = 1000\n\n"@ + policy_lines(c, hosts)
}

/// Whether some host is enabled.
pub fn has_enabled_host(hosts: &Vec<HostOverride>) -> (r: bool)
    ensures
        r == any_host(hosts@),
{
    let mut i: usize = 0;
    while i < hosts.len()
        invariant
            i <= hosts@.len(),
            forall|k: int| 0 <= k < i ==> !(#[trigger] hosts@[k]).enabled,
        decreases hosts.len() - i,
    {
        if hosts[i].enabled {
            assert(hosts@[i as int].enabled);
            return true;
        }
        i = i + 1;
    }
    false
}

fn listener_text(c: &ResolverConfig) -> (r: String)
    ensures
        r@ == listeners(c@),
{
    let port = fmt_u64(c.port as u64);
    let after = cat3(":", port.as_str(), "\"");
    join_text(&wrap_all("\"", &c.listen_interfaces, after.as_str()), ", ")
}

fn forwarders_text(c: &ResolverConfig) -> (r: String)
    ensures
        r@ == forwarders_line(c@),
{
    assert(views(c.forwarding_servers@).len() == c.forwarding_servers@.len());
    if c.forwarding_enabled && c.forwarding_servers.len() > 0 {
        let l = join_text(&wrap_all("\"", &c.forwarding_servers, "\""), ", ");
        cat3("forwarders = [", l.as_str(), "]\n")
    } else {
        "forwarders = []\n".to_owned()
    }
}

fn dns64_text(c: &ResolverConfig) -> (r: String)
    ensures
        r@ == dns64_lines(c@),
{
    if c.dns64 {
        match validate_dns64_prefix(c.dns64_prefix.as_str()) {
            Ok(_) => cat3("dns64 = true\ndns64_prefix = \"", c.dns64_prefix.as_str(), "\"\n"),
            Err(_) => String::new(),
        }
    } else {
        String::new()
    }
}

fn timeout_text(c: &ResolverConfig) -> (r: String)
    ensures
        r@ == timeout_line(c@),
{
    if c.query_timeout_ms > 0 {
        let n = fmt_u64(c.query_timeout_ms as u64);
        cat3("query_timeout_ms = ", n.as_str(), "\n")
    } else {
        String::new()
    }
}

/// The address of an upstream resolver that may carry a port.
pub fn address_of_server(server: &str) -> (r: String)
    ensures
        r@ == server_address(server@),
{
    if ipv6_ok(server) {
        return server.to_owned();
    }
    let v = chars_of(server);
    if v.len() > 0 && v[0] == '[' {
        let rest = text_between(&v, 1, v.len());
        assert(rest@ =~= server@.skip(1));
        let q = split_text(rest.as_str(), ']');
        assert(views(q@).len() == q@.len());
        if q.len() >= 2 && ipv6_ok(q[0].as_str()) {
            return q[0].clone();
        }
    }
    let p = split_text(server, ':');
    proof {
        split_pieces(server@, ':');
        assert(views(p@).len() == p@.len());
    }
    p[0].clone()
}

fn forward_text(domains: &Vec<DomainOverride>) -> (r: String)
    ensures
        r@ == forward_block(domains@),
{
    let mut r = "\n".to_owned();
    let mut any = false;
    let mut i: usize = 0;
    assert("\n"@ + forward_zones(domains@.take(0)) =~= "\n"@);
    while i < domains.len()
        invariant
            i <= domains@.len(),
            r@ == "\n"@ + forward_zones(domains@.take(i as int)),
            any == (enabled_domains(domains@.take(i as int)).len() > 0),
        decreases domains.len() - i,
    {
        let ghost mid = forward_zones(domains@.take(i as int));
        assert(domains@.take(i + 1).drop_last() =~= domains@.take(i as int));
        if domains[i].enabled {
            let ip = address_of_server(domains[i].server.as_str());
            let zone = cat5(
                "[[resolver.forward_zones]]\nname = \"",
                domains[i].domain.as_str(),
                "\"\nforwarders = [\"",
                ip.as_str(),
                "\"]\n\n",
            );
            r.append(zone.as_str());
            assert(r@ =~= "\n"@ + (mid + forward_zone(domains@[i as int])));
            any = true;
        }
        i = i + 1;
    }
    assert(domains@.take(domains@.len() as int) =~= domains@);
    if any {
        r
    } else {
        String::new()
    }
}

fn policy_text(c: &ResolverConfig, hosts: bool) -> (r: String)
    ensures
        forall|hs: Seq<HostOverride>| any_host(hs) == hosts ==> r@ == #[trigger] policy_lines(c@, hs),
{
    assert(views(c.blocklist_urls@).len() == c.blocklist_urls@.len());
    let h = if hosts {
        "[[rpz.zones]]\nname = \"rpz.hosts\"\nfile = \"/usr/local/etc/rdns/rpz/hosts.rpz\"\n\n".to_owned()
    } else {
        String::new()
    };
    let b = if c.blocklists_enabled && c.blocklist_urls.len() > 0 {
        "[[rpz.zones]]\nname = \"rpz.blocklist\"\nfile = \"/usr/local/etc/rdns/rpz/blocklist.rpz\"\n\n".to_owned()
    } else {
        String::new()
    };
    cat2(h.as_str(), b.as_str())
}

/// Generates `rdns.toml` from the settings and the operators' records.
pub fn generate_rdns_conf(c: &ResolverConfig, hosts: &Vec<HostOverride>, domains: &Vec<DomainOverride>) -> (r: String)
    ensures
        r@ == rdns_conf(c@, hosts@, domains@),
{
    let any = has_enabled_host(hosts);
    let need_auth = any || c.register_dhcp;
    let listen = listener_text(c);
    let max_ttl = fmt_u64(c.cache_max_ttl as u64);
    let min_ttl = fmt_u64(c.cache_min_ttl as u64);
    let forwarders = forwarders_text(c);
    let dns64 = dns64_text(c);
    let timeout = timeout_text(c);
    let zones = forward_text(domains);
    let policy = policy_text(c, any);
    let mut t = "# AiFw rDNS Configuration — Auto-generated\n\n".to_owned();
    t.append("[server]\nmode = \"");
    t.append(
        if need_auth {
            "both"
        } else {
            "resolver"
        },
    );
    t.append("\"\nuser = \"rdns\"\ngroup = \"rdns\"\npidfile = \"/dev/null\"\n\n");
    t.append("[listeners]\nudp = [");
    t.append(listen.as_str());
    t.append("]\ntcp = [");
    t.append(listen.as_str());
    t.append("]\n\n");
    t.append("[cache]\nmax_entries = 1000000\nmax_ttl = ");
    t.append(max_ttl.as_str());
    t.append("\nmin_ttl = ");
    t.append(min_ttl.as_str());
    t.append("\nnegative_ttl = 300\n\n");
    t.append("[resolver]\n");
    t.append(forwarders.as_str());
    t.append("dnssec = ");
    t.append(bool_str(c.dnssec));
    t.append("\nqname_minimization = true\n");
    t.append(dns64.as_str());
    t.append(timeout.as_str());
    t.append(zones.as_str());
    t.append("\n");
    t.append(
        if need_auth {
            "[authoritative]\nsource = \"zone-files\"\ndirectory = \"/usr/local/etc/rdns/zones\"\n\n"
        } else {
            "[authoritative]\nsource = \"none\"\n\n"
        },
    );
    t.append("[control]\nsocket = \"/var/run/rdns/control.sock\"\n\n");
    t.append("[metrics]\nenabled = true\naddress = \"127.0.0.1:9153\"\n\n");
    t.append("[logging]\nlevel = \"");
    t.append(
        if c.log_verbosity >= 2 {
            "debug"
        } else {
            "info"
        },
    );
    t.append("\"\nformat = \"text\"\nquery_log = ");
    t.append(bool_str(c.log_queries));
    t.append("\n\n");
    t.append("[security]\nsandbox = false\nrate_limit = 1000\n\n");
    t.append(policy.as_str());
    t
}

// ---------------------------------------------------------------------------
// Zone files
// ---------------------------------------------------------------------------

/// The reverse record of the dotted address `ip`, which points to `target`.
pub open spec fn ptr_record(ip: Seq<char>, target: Seq<char>) -> Seq<char> {
    let o = split(ip, '.');
    o[3] + "."@ + o[2] + "."@ + o[1] + "."@ + o[0] + ".in-addr.arpa. IN PTR "@ + target
}

/// A name that ends in a dot.
pub open spec fn rooted(name: Seq<char>) -> Seq<char> {
    if has_suffix(name, "."@) {
        name
    } else {
        name + "."@
    }
}

/// The reverse records of the enabled `A` hosts with four dotted parts.
pub open spec fn host_ptrs(hs: Seq<HostOverride>) -> Seq<Seq<char>>
    decreases hs.len(),
{
    if hs.len() == 0 {
        Seq::<Seq<char>>::empty()
    } else {
        let init = host_ptrs(hs.drop_last());
        let h = hs.last();
        if h.enabled && h.record_type@ == "A"@ && split(h.value@, '.').len() == 4 {
            init.push(ptr_record(h.value@, rooted(fqdn(h))))
        } else {
            init
        }
    }
}

/// The name a lease is registered under: its first label in lower case.
pub open spec fn lease_host(l: Lease) -> Seq<char> {
    unicode_lowercase(split(l.hostname@, '.')[0])
}

/// A lease with an address and a name.
pub open spec fn is_named_lease(l: Lease) -> bool {
    l.ip@.len() > 0 && l.hostname@.len() > 0
}

/// The address records of the leases.
pub open spec fn lease_records(ls: Seq<Lease>) -> Seq<char>
    decreases ls.len(),
{
    if ls.len() == 0 {
        Seq::<char>::empty()
    } else {
        let init = lease_records(ls.drop_last());
        let l = ls.last();
        if is_named_lease(l) {
            init + (padded(lease_host(l), 24) + " IN A       "@ + l.ip@ + "\n"@)
        } else {
            init
        }
    }
}

/// The reverse records of the leases.
pub open spec fn lease_ptrs(ls: Seq<Lease>, domain: Seq<char>) -> Seq<Seq<char>>
    decreases ls.len(),
{
    if ls.len() == 0 {
        Seq::<Seq<char>>::empty()
    } else {
        let init = lease_ptrs(ls.drop_last(), domain);
        let l = ls.last();
        if is_named_lease(l) && split(l.ip@, '.').len() == 4 {
            init.push(ptr_record(l.ip@, lease_host(l) + "."@ + domain + "."@))
        } else {
            init
        }
    }
}

/// The domain that leases are registered in.
pub open spec fn lease_domain(c: ResolverView) -> Seq<char> {
    if c.dhcp_domain.len() == 0 {
        "local"@
    } else {
        c.dhcp_domain
    }
}

/// The zone file of the leases.
pub open spec fn lease_zone(domain: Seq<char>, ls: Seq<Lease>, serial: nat) -> Seq<char> {
    "$TTL 60\n$ORIGIN "@ + domain + ".\n@ IN SOA ns1."@ + domain + ". admin."@ + domain + ". "@ + dec(serial)
        + " 3600 900 604800 60\n  IN NS  ns1."@ + domain + ".\n"@ + lease_records(ls)
}

/// The reverse zone that a record belongs to: its /24 network.
pub open spec fn reverse_zone(record: Seq<char>) -> Option<Seq<char>> {
    let p = split(record, '.');
    if p.len() >= 6 {
        Some(p[1] + "."@ + p[2] + "."@ + p[3] + ".in-addr.arpa"@)
    } else {
        None
    }
}

/// The reverse zones of the records, each once, in the order in which they
/// first appear.
pub open spec fn reverse_zones(ptrs: Seq<Seq<char>>) -> Seq<Seq<char>>
    decreases ptrs.len(),
{
    if ptrs.len() == 0 {
        Seq::<Seq<char>>::empty()
    } else {
        let init = reverse_zones(ptrs.drop_last());
        match reverse_zone(ptrs.last()) {
            Some(z) => if init.contains(z) {
                init
            } else {
                init.push(z)
            },
            None => init,
        }
    }
}

/// The records of one reverse zone, a line each.
pub open spec fn zone_records(ptrs: Seq<Seq<char>>, zone: Seq<char>) -> Seq<char>
    decreases ptrs.len(),
{
    if ptrs.len() == 0 {
        Seq::<char>::empty()
    } else {
        let init = zone_records(ptrs.drop_last(), zone);
        if reverse_zone(ptrs.last()) == Some(zone) {
            init + (ptrs.last() + "\n"@)
        } else {
            init
        }
    }
}

/// The file of one reverse zone.
pub open spec fn reverse_file(ptrs: Seq<Seq<char>>, zone: Seq<char>, serial: nat) -> (Seq<char>, Seq<char>) {
    (
        zone + ".zone"@,
        "$TTL 300\n$ORIGIN "@ + zone + ".\n@ IN SOA ns1.aifw.local. admin.aifw.local. "@ + dec(serial)
            + " 3600 900 604800 300\n  IN NS  ns1.aifw.local.\n"@ + zone_records(ptrs, zone),
    )
}

/// All reverse records: those of hosts, then those of leases where leases are
/// registered and could be read.
pub open spec fn all_ptrs(c: ResolverView, hosts: Seq<HostOverride>, leases: Option<Seq<Lease>>) -> Seq<Seq<char>> {
    match leases {
        Some(ls) => if c.register_dhcp {
            host_ptrs(hosts) + lease_ptrs(ls, lease_domain(c))
        } else {
            host_ptrs(hosts)
        },
        None => host_ptrs(hosts),
    }
}

/// The zone files, as names and contents: the zone of the leases, then one
/// reverse zone for each /24 network.
pub open spec fn zone_files(
    c: ResolverView,
    hosts: Seq<HostOverride>,
    leases: Option<Seq<Lease>>,
    serial: nat,
) -> Seq<(Seq<char>, Seq<char>)> {
    let first = if c.register_dhcp && leases is Some {
        Seq::<(Seq<char>, Seq<char>)>::empty().push(
            ("dhcp."@ + lease_domain(c) + ".zone"@, lease_zone(lease_domain(c), leases->0, serial)),
        )
    } else {
        Seq::<(Seq<char>, Seq<char>)>::empty()
    };
    let ptrs = all_ptrs(c, hosts, leases);
    let zones = reverse_zones(ptrs);
    first + Seq::new(zones.len(), |i: int| reverse_file(ptrs, zones[i], serial))
}

/// A file to write: its name and its text.
#[derive(Clone, Debug)]
pub struct ZoneFile {
    pub name: String,
    pub content: String,
}

impl View for ZoneFile {
    type V = (Seq<char>, Seq<char>);

    open spec fn view(&self) -> (Seq<char>, Seq<char>) {
        (self.name@, self.content@)
    }
}

/// The names and contents of files.
pub open spec fn files(v: Seq<ZoneFile>) -> Seq<(Seq<char>, Seq<char>)> {
    Seq::new(v.len(), |i: int| v[i]@)
}

fn push_file(v: &mut Vec<ZoneFile>, name: String, content: String)
    ensures
        files(final(v)@) == files(old(v)@).push((name@, content@)),
{
    let ghost before = files(v@);
    let ghost f = (name@, content@);
    v.push(ZoneFile { name, content });
    assert(files(v@) =~= before.push(f));
}

/// The reverse record of `ip`, if it has four dotted parts.
fn make_ptr(ip: &str, target: &str) -> (r: Option<String>)
    ensures
        match r {
            Some(t) => split(ip@, '.').len() == 4 && t@ == ptr_record(ip@, target@),
            None => split(ip@, '.').len() != 4,
        },
{
    let o = split_text(ip, '.');
    assert(views(o@).len() == o@.len());
    if o.len() != 4 {
        return None;
    }
    let mut r = cat5(o[3].as_str(), ".", o[2].as_str(), ".", o[1].as_str());
    r.append(".");
    r.append(o[0].as_str());
    r.append(".in-addr.arpa. IN PTR ");
    r.append(target);
    Some(r)
}

fn rooted_name(name: String) -> (r: String)
    ensures
        r@ == rooted(name@),
{
    if ends_with(name.as_str(), ".") {
        name
    } else {
        cat2(name.as_str(), ".")
    }
}

fn host_ptr_list(hosts: &Vec<HostOverride>) -> (r: Vec<String>)
    ensures
        views(r@) == host_ptrs(hosts@),
{
    let mut r: Vec<String> = Vec::new();
    let mut i: usize = 0;
    assert(views(r@) =~= host_ptrs(hosts@.take(0)));
    while i < hosts.len()
        invariant
            i <= hosts@.len(),
            views(r@) == host_ptrs(hosts@.take(i as int)),
        decreases hosts.len() - i,
    {
        assert(hosts@.take(i + 1).drop_last() =~= hosts@.take(i as int));
        let h = &hosts[i];
        if h.enabled && same(h.record_type.as_str(), "A") {
            let target = rooted_name(host_fqdn(h));
            match make_ptr(h.value.as_str(), target.as_str()) {
                Some(p) => push_line(&mut r, p),
                None => {},
            }
        }
        i = i + 1;
    }
    assert(hosts@.take(hosts@.len() as int) =~= hosts@);
    r
}

fn lease_name(l: &Lease) -> (r: String)
    ensures
        r@ == lease_host(*l),
{
    let p = split_text(l.hostname.as_str(), '.');
    proof {
        split_pieces(l.hostname@, '.');
        assert(views(p@).len() == p@.len());
    }
    lower_text(p[0].as_str())
}

fn lease_record_text(leases: &Vec<Lease>) -> (r: String)
    ensures
        r@ == lease_records(leases@),
{
    let mut r = String::new();
    let mut i: usize = 0;
    assert(r@ =~= lease_records(leases@.take(0)));
    while i < leases.len()
        invariant
            i <= leases@.len(),
            r@ == lease_records(leases@.take(i as int)),
        decreases leases.len() - i,
    {
        assert(leases@.take(i + 1).drop_last() =~= leases@.take(i as int));
        let l = &leases[i];
        if !l.ip.as_str().is_empty() && !l.hostname.as_str().is_empty() {
            let name = lease_name(l);
            let column = pad_right(name.as_str(), 24);
            let record = cat4(column.as_str(), " IN A       ", l.ip.as_str(), "\n");
            r.append(record.as_str());
        }
        i = i + 1;
    }
    assert(leases@.take(leases@.len() as int) =~= leases@);
    r
}

fn lease_ptr_list(leases: &Vec<Lease>, domain: &str) -> (r: Vec<String>)
    ensures
        views(r@) == lease_ptrs(leases@, domain@),
{
    let mut r: Vec<String> = Vec::new();
    let mut i: usize = 0;
    assert(views(r@) =~= lease_ptrs(leases@.take(0), domain@));
    while i < leases.len()
        invariant
            i <= leases@.len(),
            views(r@) == lease_ptrs(leases@.take(i as int), domain@),
        decreases leases.len() - i,
    {
        assert(leases@.take(i + 1).drop_last() =~= leases@.take(i as int));
        let l = &leases[i];
        if !l.ip.as_str().is_empty() && !l.hostname.as_str().is_empty() {
            let name = lease_name(l);
            let target = cat4(name.as_str(), ".", domain, ".");
            match make_ptr(l.ip.as_str(), target.as_str()) {
                Some(p) => push_line(&mut r, p),
                None => {},
            }
        }
        i = i + 1;
    }
    assert(leases@.take(leases@.len() as int) =~= leases@);
    r
}

fn zone_of_record(record: &str) -> (r: Option<String>)
    ensures
        match r {
            Some(z) => reverse_zone(record@) == Some(z@),
            None => reverse_zone(record@) is None,
        },
{
    let p = split_text(record, '.');
    assert(views(p@).len() == p@.len());
    if p.len() >= 6 {
        let mut z = cat5(p[1].as_str(), ".", p[2].as_str(), ".", p[3].as_str());
        z.append(".in-addr.arpa");
        Some(z)
    } else {
        None
    }
}

fn zone_list(ptrs: &Vec<String>) -> (r: Vec<String>)
    ensures
        views(r@) == reverse_zones(views(ptrs@)),
{
    let ghost all = views(ptrs@);
    let mut r: Vec<String> = Vec::new();
    let mut i: usize = 0;
    assert(views(r@) =~= reverse_zones(all.take(0)));
    while i < ptrs.len()
        invariant
            i <= ptrs@.len(),
            all == views(ptrs@),
            views(r@) == reverse_zones(all.take(i as int)),
        decreases ptrs.len() - i,
    {
        assert(all.take(i + 1).drop_last() =~= all.take(i as int));
        match zone_of_record(ptrs[i].as_str()) {
            Some(z) => {
                if !list_contains(&r, z.as_str()) {
                    push_line(&mut r, z);
                }
            },
            None => {},
        }
        i = i + 1;
    }
    assert(all.take(ptrs@.len() as int) =~= all);
    r
}

fn zone_record_text(ptrs: &Vec<String>, zone: &str) -> (r: String)
    ensures
        r@ == zone_records(views(ptrs@), zone@),
{
    let ghost all = views(ptrs@);
    let mut r = String::new();
    let mut i: usize = 0;
    assert(r@ =~= zone_records(all.take(0), zone@));
    while i < ptrs.len()
        invariant
            i <= ptrs@.len(),
            all == views(ptrs@),
            r@ == zone_records(all.take(i as int), zone@),
        decreases ptrs.len() - i,
    {
        assert(all.take(i + 1).drop_last() =~= all.take(i as int));
        match zone_of_record(ptrs[i].as_str()) {
            Some(z) => {
                if same(z.as_str(), zone) {
                    let line = cat2(ptrs[i].as_str(), "\n");
                    r.append(line.as_str());
                }
            },
            None => {},
        }
        i = i + 1;
    }
    assert(all.take(ptrs@.len() as int) =~= all);
    r
}

/// Generates the zone files from the settings, the operators' hosts and the
/// leases, where the DHCP server could be asked for them. `serial` is the
/// serial number of the zones.
pub fn generate_rdns_zones(
    c: &ResolverConfig,
    hosts: &Vec<HostOverride>,
    leases: Option<&Vec<Lease>>,
    serial: u64,
) -> (r: Vec<ZoneFile>)
    ensures
        files(r@) == zone_files(
            c@,
            hosts@,
            match leases {
                Some(l) => Some(l@),
                None => None,
            },
            serial as nat,
        ),
{
    let ghost ls: Option<Seq<Lease>> = match leases {
        Some(l) => Some(l@),
        None => None,
    };
    let serial_text = fmt_u64(serial);
    let s = serial_text.as_str();
    let mut r: Vec<ZoneFile> = Vec::new();
    assert(files(r@) =~= Seq::<(Seq<char>, Seq<char>)>::empty());
    let mut ptrs = host_ptr_list(hosts);
    match leases {
        Some(l) => {
            if c.register_dhcp {
                let domain = if c.dhcp_domain.as_str().is_empty() {
                    "local".to_owned()
                } else {
                    c.dhcp_domain.clone()
                };
                let d = domain.as_str();
                let records = lease_record_text(l);
                let mut zone = cat5("$TTL 60\n$ORIGIN ", d, ".\n@ IN SOA ns1.", d, ". admin.");
                zone.append(d);
                zone.append(". ");
                zone.append(s);
                zone.append(" 3600 900 604800 60\n  IN NS  ns1.");
                zone.append(d);
                zone.append(".\n");
                zone.append(records.as_str());
                let name = cat3("dhcp.", d, ".zone");
                push_file(&mut r, name, zone);
                let ghost before = views(ptrs@);
                let mut more = lease_ptr_list(l, d);
                let ghost tail = views(more@);
                ptrs.append(&mut more);
                assert(views(ptrs@) =~= before + tail);
            }
        },
        None => {},
    }
    assert(views(ptrs@) == all_ptrs(c@, hosts@, ls));
    let zones = zone_list(&ptrs);
    let ghost first = files(r@);
    let ghost names = reverse_zones(views(ptrs@));
    assert(views(zones@).len() == zones@.len());
    let mut i: usize = 0;
    while i < zones.len()
        invariant
            i <= zones@.len(),
            views(zones@) == names,
            names == reverse_zones(views(ptrs@)),
            s@ == dec(serial as nat),
            files(r@) =~= first + Seq::new(i as nat, |k: int| reverse_file(views(ptrs@), names[k], serial as nat)),
        decreases zones.len() - i,
    {
        let z = zones[i].as_str();
        assert(z@ == names[i as int]);
        let records = zone_record_text(&ptrs, z);
        let zone = cat5(
            "$TTL 300\n$ORIGIN ",
            z,
            ".\n@ IN SOA ns1.aifw.local. admin.aifw.local. ",
            s,
            " 3600 900 604800 300\n  IN NS  ns1.aifw.local.\n",
        );
        let text = cat2(zone.as_str(), records.as_str());
        push_file(&mut r, cat2(z, ".zone"), text);
        i = i + 1;
    }
    assert(files(r@) =~= zone_files(c@, hosts@, ls, serial as nat));
    r
}

// ---------------------------------------------------------------------------
// Response policy zones
// ---------------------------------------------------------------------------

/// The rewrite of one enabled host: only address and alias records can be
/// rewritten.
pub open spec fn host_rewrite(h: HostOverride) -> Seq<char> {
    if h.record_type@ == "A"@ {
        fqdn(h) + " A "@ + h.value@ + "\n"@
    } else if h.record_type@ == "AAAA"@ {
        fqdn(h) + " AAAA "@ + h.value@ + "\n"@
    } else if h.record_type@ == "CNAME"@ {
        fqdn(h) + " CNAME "@ + h.value@ + "\n"@
    } else {
        Seq::<char>::empty()
    }
}

/// The rewrites of the enabled hosts.
pub open spec fn host_rewrites(hs: Seq<HostOverride>) -> Seq<char>
    decreases hs.len(),
{
    if hs.len() == 0 {
        Seq::<char>::empty()
    } else if hs.last().enabled {
        host_rewrites(hs.drop_last()) + host_rewrite(hs.last())
    } else {
        host_rewrites(hs.drop_last())
    }
}

/// The policy zone of the hosts, where a host is enabled.
pub open spec fn hosts_rpz(hs: Seq<HostOverride>, serial: nat) -> Option<Seq<char>> {
    if any_host(hs) {
        Some(
            "$TTL 60\n@ IN SOA localhost. admin.localhost. "@ + dec(serial)
                + " 3600 900 604800 60\n  IN NS  localhost.\n"@ + host_rewrites(hs),
        )
    } else {
        None
    }
}

fn rewrite_text(h: &HostOverride) -> (r: String)
    ensures
        r@ == host_rewrite(*h),
{
    proof {
        reveal_strlit("A");
        reveal_strlit("AAAA");
        reveal_strlit("CNAME");
    }
    let name = host_fqdn(h);
    let t = h.record_type.as_str();
    if same(t, "A") {
        cat4(name.as_str(), " A ", h.value.as_str(), "\n")
    } else if same(t, "AAAA") {
        cat4(name.as_str(), " AAAA ", h.value.as_str(), "\n")
    } else if same(t, "CNAME") {
        cat4(name.as_str(), " CNAME ", h.value.as_str(), "\n")
    } else {
        String::new()
    }
}

/// Generates the policy zone that rewrites the enabled hosts without making
/// the resolver authoritative for their domains.
pub fn generate_rdns_hosts_rpz(hosts: &Vec<HostOverride>, serial: u64) -> (r: Option<String>)
    ensures
        match r {
            Some(t) => hosts_rpz(hosts@, serial as nat) == Some(t@),
            None => hosts_rpz(hosts@, serial as nat) is None,
        },
{
    if !has_enabled_host(hosts) {
        return None;
    }
    let s = fmt_u64(serial);
    let mut body = String::new();
    let mut i: usize = 0;
    assert(body@ =~= host_rewrites(hosts@.take(0)));
    while i < hosts.len()
        invariant
            i <= hosts@.len(),
            body@ == host_rewrites(hosts@.take(i as int)),
        decreases hosts.len() - i,
    {
        assert(hosts@.take(i + 1).drop_last() =~= hosts@.take(i as int));
        if hosts[i].enabled {
            let line = rewrite_text(&hosts[i]);
            body.append(line.as_str());
        }
        i = i + 1;
    }
    assert(hosts@.take(hosts@.len() as int) =~= hosts@);
    let zone = cat4(
        "$TTL 60\n@ IN SOA localhost. admin.localhost. ",
        s.as_str(),
        " 3600 900 604800 60\n  IN NS  localhost.\n",
        body.as_str(),
    );
    Some(zone)
}

/// The domain that one line of a block list names, if it names one. The line
/// is a name, or an address of this machine and a name; comments, and names
/// of this machine, name nothing.
pub open spec fn blocked_domain(line: Seq<char>) -> Option<Seq<char>> {
    let l = trim(line);
    if l.len() == 0 || l[0] == '#' || l[0] == '!' {
        None
    } else {
        let w = words(l);
        let at: int = if has_prefix(l, "0.0.0.0"@) || has_prefix(l, "127.0.0.1"@) {
            1
        } else {
            0
        };
        if at >= w.len() {
            None
        } else {
            let d = trim_end_of(trim(w[at]), '.');
            if d.len() == 0 || d == "localhost"@ || d == "local"@ {
                None
            } else {
                Some(d)
            }
        }
    }
}

/// What the policy zone does with a blocked domain.
pub open spec fn block_line(c: ResolverView, d: Seq<char>) -> Seq<char> {
    if c.blocklist_action == "redirect"@ {
        d + " A "@ + (match c.blocklist_redirect_ip {
            Some(ip) => ip,
            None => "0.0.0.0"@,
        }) + "\n"@
    } else {
        d + " CNAME .\n"@
    }
}

/// The policy lines of one downloaded list.
pub open spec fn block_lines(c: ResolverView, ls: Seq<Seq<char>>) -> Seq<char>
    decreases ls.len(),
{
    if ls.len() == 0 {
        Seq::<char>::empty()
    } else {
        let init = block_lines(c, ls.drop_last());
        match blocked_domain(ls.last()) {
            Some(d) => init + block_line(c, d),
            None => init,
        }
    }
}

/// The policy lines of all downloaded lists.
pub open spec fn all_block_lines(c: ResolverView, bodies: Seq<Seq<char>>) -> Seq<char>
    decreases bodies.len(),
{
    if bodies.len() == 0 {
        Seq::<char>::empty()
    } else {
        all_block_lines(c, bodies.drop_last()) + block_lines(c, lines(bodies.last()))
    }
}

/// The lines that let listed domains through.
pub open spec fn pass_lines(l: Seq<Seq<char>>) -> Seq<char>
    decreases l.len(),
{
    if l.len() == 0 {
        Seq::<char>::empty()
    } else {
        let init = pass_lines(l.drop_last());
        let d = trim_end_of(trim(l.last()), '.');
        if d.len() == 0 {
            init
        } else {
            init + (d + " CNAME rpz-passthru.\n"@)
        }
    }
}

/// The policy zone of the block lists, where blocking is on and has a list.
pub open spec fn blocklist_rpz(c: ResolverView, bodies: Seq<Seq<char>>, serial: nat) -> Option<Seq<char>> {
    if c.blocklists_enabled && c.blocklist_urls.len() > 0 {
        Some(
            "$TTL 300\n@ IN SOA localhost. admin.localhost. "@ + dec(serial)
                + " 3600 900 604800 300\n  IN NS  localhost.\n"@ + pass_lines(c.whitelist) + all_block_lines(c, bodies),
        )
    } else {
        None
    }
}

/// The places to download block lists from: none where blocking is off.
pub open spec fn downloads(c: ResolverView) -> Seq<Seq<char>> {
    if c.blocklists_enabled {
        filled_trims(c.blocklist_urls)
    } else {
        Seq::<Seq<char>>::empty()
    }
}

/// The texts without surrounding white space, without empty ones.
pub open spec fn filled_trims(l: Seq<Seq<char>>) -> Seq<Seq<char>> {
    crate::kv::trimmed_pieces(l)
}

/// The places to download block lists from, in order.
pub fn blocklist_downloads(c: &ResolverConfig) -> (r: Vec<String>)
    ensures
        views(r@) == downloads(c@),
{
    let mut r: Vec<String> = Vec::new();
    let ghost all = views(c.blocklist_urls@);
    assert(views(r@) =~= Seq::<Seq<char>>::empty());
    if !c.blocklists_enabled {
        return r;
    }
    let mut i: usize = 0;
    assert(all.take(0) =~= Seq::<Seq<char>>::empty());
    while i < c.blocklist_urls.len()
        invariant
            i <= c.blocklist_urls@.len(),
            all == views(c.blocklist_urls@),
            views(r@) == filled_trims(all.take(i as int)),
        decreases c.blocklist_urls.len() - i,
    {
        assert(all.take(i + 1).drop_last() =~= all.take(i as int));
        let t = trimmed(c.blocklist_urls[i].as_str());
        if !t.as_str().is_empty() {
            push_line(&mut r, t);
        }
        i = i + 1;
    }
    assert(all.take(c.blocklist_urls@.len() as int) =~= all);
    r
}

fn domain_of_line(line: &str) -> (r: Option<String>)
    ensures
        match r {
            Some(d) => blocked_domain(line@) == Some(d@),
            None => blocked_domain(line@) is None,
        },
{
    proof {
        reveal_strlit("#");
        reveal_strlit("!");
    }
    let l = trimmed(line);
    let v = crate::text::chars_of(l.as_str());
    if v.len() == 0 || v[0] == '#' || v[0] == '!' {
        return None;
    }
    let w = words_of(l.as_str());
    assert(views(w@).len() == w@.len());
    let at: usize = if starts_with(l.as_str(), "0.0.0.0") || starts_with(l.as_str(), "127.0.0.1") {
        1
    } else {
        0
    };
    if at >= w.len() {
        return None;
    }
    let t = trimmed(w[at].as_str());
    let d = trim_end_char(t.as_str(), '.');
    if d.as_str().is_empty() || same(d.as_str(), "localhost") || same(d.as_str(), "local") {
        None
    } else {
        Some(d)
    }
}

fn block_text(c: &ResolverConfig, d: &str) -> (r: String)
    ensures
        r@ == block_line(c@, d@),
{
    if same(c.blocklist_action.as_str(), "redirect") {
        let ip = match &c.blocklist_redirect_ip {
            Some(ip) => ip.as_str(),
            None => "0.0.0.0",
        };
        cat4(d, " A ", ip, "\n")
    } else {
        cat2(d, " CNAME .\n")
    }
}

fn list_text(c: &ResolverConfig, body: &str) -> (r: String)
    ensures
        r@ == block_lines(c@, lines(body@)),
{
    let ls = lines_of(body);
    let ghost all = views(ls@);
    let mut r = String::new();
    let mut i: usize = 0;
    assert(r@ =~= block_lines(c@, all.take(0)));
    while i < ls.len()
        invariant
            i <= ls@.len(),
            all == views(ls@),
            r@ == block_lines(c@, all.take(i as int)),
        decreases ls.len() - i,
    {
        assert(all.take(i + 1).drop_last() =~= all.take(i as int));
        match domain_of_line(ls[i].as_str()) {
            Some(d) => {
                let line = block_text(c, d.as_str());
                r.append(line.as_str());
            },
            None => {},
        }
        i = i + 1;
    }
    assert(all.take(ls@.len() as int) =~= all);
    r
}

fn pass_text(l: &Vec<String>) -> (r: String)
    ensures
        r@ == pass_lines(views(l@)),
{
    let ghost all = views(l@);
    let mut r = String::new();
    let mut i: usize = 0;
    assert(r@ =~= pass_lines(all.take(0)));
    while i < l.len()
        invariant
            i <= l@.len(),
            all == views(l@),
            r@ == pass_lines(all.take(i as int)),
        decreases l.len() - i,
    {
        assert(all.take(i + 1).drop_last() =~= all.take(i as int));
        let t = trimmed(l[i].as_str());
        let d = trim_end_char(t.as_str(), '.');
        if !d.as_str().is_empty() {
            let line = cat2(d.as_str(), " CNAME rpz-passthru.\n");
            r.append(line.as_str());
        }
        i = i + 1;
    }
    assert(all.take(l@.len() as int) =~= all);
    r
}

/// Generates the policy zone of the block lists from the texts that were
/// downloaded, in the order of the settings.
pub fn generate_rdns_rpz(c: &ResolverConfig, bodies: &Vec<String>, serial: u64) -> (r: Option<String>)
    ensures
        match r {
            Some(t) => blocklist_rpz(c@, views(bodies@), serial as nat) == Some(t@),
            None => blocklist_rpz(c@, views(bodies@), serial as nat) is None,
        },
{
    assert(views(c.blocklist_urls@).len() == c.blocklist_urls@.len());
    if !c.blocklists_enabled || c.blocklist_urls.len() == 0 {
        return None;
    }
    let s = fmt_u64(serial);
    let pass = pass_text(&c.whitelist);
    let ghost all = views(bodies@);
    let mut body = String::new();
    let mut i: usize = 0;
    assert(body@ =~= all_block_lines(c@, all.take(0)));
    while i < bodies.len()
        invariant
            i <= bodies@.len(),
            all == views(bodies@),
            body@ == all_block_lines(c@, all.take(i as int)),
        decreases bodies.len() - i,
    {
        assert(all.take(i + 1).drop_last() =~= all.take(i as int));
        let t = list_text(c, bodies[i].as_str());
        body.append(t.as_str());
        i = i + 1;
    }
    assert(all.take(bodies@.len() as int) =~= all);
    Some(
        cat5(
            "$TTL 300\n@ IN SOA localhost. admin.localhost. ",
            s.as_str(),
            " 3600 900 604800 300\n  IN NS  localhost.\n",
            pass.as_str(),
            body.as_str(),
        ),
    )
}

// ---------------------------------------------------------------------------
// Laws
// ---------------------------------------------------------------------------

/// A file of a zone has its name and its content.
pub proof fn zone_files_hold_their_parts(f: ZoneFile)
    ensures
        f@.0 == f.name@,
        f@.1 == f.content@,
{
}

} // verus!
