//! What stands in the file of unbound.

use vstd::prelude::*;
use vstd::string::*;

use crate::dns_resolver::config::{ResolverConfig, ResolverView};
use crate::dns_resolver::records::{AccessListEntry, DomainOverride, HostOverride, Lease};
use crate::dns_resolver::unbound::{
    access_line, after_resolv_line, after_resolv_lines, base_lines, custom_block, domain_zone, domain_zones, forwarders,
    fqdn, generate_unbound_conf, host_lines, hosts_lines, lease_lines, leases_lines, local_data, outgoing_range,
    root_zone, server_lines, unbound_conf,
};
use crate::lists::{
    append_holds, has_line, join_tells_parts_apart, part_is_within, parts_stand_apart, push_holds, text_is_within,
    within_is_transitive,
};
use crate::number::dec;
use crate::text::{concat, filled_only, has_prefix, has_text, join, lines, split, trim, wrapped};

verus! {

// ---------------------------------------------------------------------------
// The parts of the file
// ---------------------------------------------------------------------------

/// What stands before the lines of the server.
spec fn head() -> Seq<char> {
    "# AiFw Unbound Configuration — Auto-generated\n# Do not edit manually\n\nserver:\n"@
}

/// What stands between the local data and the zones.
spec fn control() -> Seq<char> {
    "\nremote-control:\n    control-enable: yes\n    control-interface: /var/unbound/unbound.ctl\n"@
}

proof fn lemma_line_break()
    ensures
        "\n"@ =~= seq!['\n'],
{
    reveal_strlit("\n");
}

proof fn lemma_head_ends()
    ensures
        head() =~= head().drop_last() + seq!['\n'],
        head().len() > 0,
{
    reveal_strlit("# AiFw Unbound Configuration — Auto-generated\n# Do not edit manually\n\nserver:\n");
}

proof fn lemma_server_line(
    c: ResolverView,
    acls: Seq<AccessListEntry>,
    hosts: Seq<HostOverride>,
    leases: Seq<Lease>,
    domains: Seq<DomainOverride>,
    resolv: Option<Seq<char>>,
    x: Seq<char>,
)
    requires
        server_lines(c, acls).contains(x),
    ensures
        has_line(unbound_conf(c, acls, hosts, leases, domains, resolv), x),
{
    lemma_line_break();
    lemma_head_ends();
    let n = seq!['\n'];
    let l = server_lines(c, acls);
    let i = choose|i: int| 0 <= i < l.len() && l[i] == x;
    parts_stand_apart(l, i, n);
    let j = join(l, n);
    let d = join(local_data(c, hosts, leases), n);
    let z = join(root_zone(c, resolv) + domain_zones(domains), n);
    let rest = d + custom_block(c.custom_options) + n + control() + n + z + n;
    part_is_within(head().drop_last(), n + j + n, rest, n + x + n);
    assert(head().drop_last() + (n + j + n) + rest =~= head() + j + n + d + custom_block(c.custom_options) + n
        + control() + n + z + n);
}

/// What follows the local data starts with a line of its own.
proof fn lemma_custom_starts(custom: Seq<char>, rest: Seq<char>)
    ensures
        custom_block(custom) + seq!['\n'] + rest =~= seq!['\n'] + (custom_block(custom) + seq!['\n'] + rest).skip(1),
{
    reveal_strlit("\n    # Custom options\n");
    let s = custom_block(custom) + seq!['\n'] + rest;
    assert(s[0] == '\n');
    assert(s =~= seq!['\n'] + s.skip(1));
}

proof fn lemma_data_parts(
    h: Seq<char>,
    j: Seq<char>,
    n: Seq<char>,
    d: Seq<char>,
    b: Seq<char>,
    k: Seq<char>,
    z: Seq<char>,
    r: Seq<char>,
)
    requires
        b + n + (k + n + z + n) == n + r,
    ensures
        h + j + (n + d + n) + r == h + j + n + d + b + n + k + n + z + n,
{
    assert(h + j + (n + d + n) + r =~= h + j + n + d + (n + r));
    assert(h + j + n + d + b + n + k + n + z + n =~= h + j + n + d + (b + n + (k + n + z + n)));
}

proof fn lemma_data_line(
    c: ResolverView,
    acls: Seq<AccessListEntry>,
    hosts: Seq<HostOverride>,
    leases: Seq<Lease>,
    domains: Seq<DomainOverride>,
    resolv: Option<Seq<char>>,
    x: Seq<char>,
)
    requires
        local_data(c, hosts, leases).contains(x),
    ensures
        has_line(unbound_conf(c, acls, hosts, leases, domains, resolv), x),
{
    lemma_line_break();
    let n = seq!['\n'];
    let l = local_data(c, hosts, leases);
    let i = choose|i: int| 0 <= i < l.len() && l[i] == x;
    parts_stand_apart(l, i, n);
    let j = join(server_lines(c, acls), n);
    let d = join(l, n);
    let z = join(root_zone(c, resolv) + domain_zones(domains), n);
    let tail = control() + n + z + n;
    lemma_custom_starts(c.custom_options, tail);
    let rest = custom_block(c.custom_options) + n + tail;
    part_is_within(head() + j, n + d + n, rest.skip(1), n + x + n);
    lemma_data_parts(head(), j, n, d, custom_block(c.custom_options), control(), z, rest.skip(1));
}

proof fn lemma_zone(
    c: ResolverView,
    acls: Seq<AccessListEntry>,
    hosts: Seq<HostOverride>,
    leases: Seq<Lease>,
    domains: Seq<DomainOverride>,
    resolv: Option<Seq<char>>,
    x: Seq<char>,
)
    requires
        (root_zone(c, resolv) + domain_zones(domains)).contains(x),
    ensures
        has_line(unbound_conf(c, acls, hosts, leases, domains, resolv), x),
{
    lemma_line_break();
    let n = seq!['\n'];
    let l = root_zone(c, resolv) + domain_zones(domains);
    let i = choose|i: int| 0 <= i < l.len() && l[i] == x;
    parts_stand_apart(l, i, n);
    let j = join(server_lines(c, acls), n);
    let d = join(local_data(c, hosts, leases), n);
    let z = join(l, n);
    let before = head() + j + n + d + custom_block(c.custom_options) + n + control();
    let e = Seq::<char>::empty();
    part_is_within(before, n + z + n, e, n + x + n);
    assert(before + (n + z + n) + e =~= before + n + z + n);
}

// ---------------------------------------------------------------------------
// The server
// ---------------------------------------------------------------------------

proof fn lemma_in_server(c: ResolverView, acls: Seq<AccessListEntry>, k: int)
    requires
        0 <= k < base_lines(c).len(),
    ensures
        server_lines(c, acls).contains(base_lines(c)[k]),
{
    assert(server_lines(c, acls)[k] == base_lines(c)[k]);
}

/// Each setting of the server gets the line that sets it.
pub proof fn settings_are_written(
    c: ResolverView,
    acls: Seq<AccessListEntry>,
    hosts: Seq<HostOverride>,
    leases: Seq<Lease>,
    domains: Seq<DomainOverride>,
    resolv: Option<Seq<char>>,
)
    ensures
        has_line(unbound_conf(c, acls, hosts, leases, domains, resolv), "    username: unbound"@),
        has_line(unbound_conf(c, acls, hosts, leases, domains, resolv), "    directory: /var/unbound"@),
        has_line(unbound_conf(c, acls, hosts, leases, domains, resolv), "    chroot: \"\""@),
        has_line(unbound_conf(c, acls, hosts, leases, domains, resolv), "    pidfile: /var/run/local_unbound.pid"@),
        has_line(unbound_conf(c, acls, hosts, leases, domains, resolv),
            "    auto-trust-anchor-file: /var/unbound/root.key"@),
        has_line(unbound_conf(c, acls, hosts, leases, domains, resolv), "    port: "@ + dec(c.port as nat)),
        has_line(unbound_conf(c, acls, hosts, leases, domains, resolv), "    do-daemonize: yes"@),
        has_line(unbound_conf(c, acls, hosts, leases, domains, resolv),
            "    outgoing-range: "@ + dec(outgoing_range(c.num_threads as nat))),
        has_line(unbound_conf(c, acls, hosts, leases, domains, resolv), "    access-control: 0.0.0.0/0 allow"@),
        has_line(unbound_conf(c, acls, hosts, leases, domains, resolv), "    access-control: ::0/0 allow"@),
        has_line(unbound_conf(c, acls, hosts, leases, domains, resolv), "    do-ip4: yes"@),
        has_line(unbound_conf(c, acls, hosts, leases, domains, resolv), "    do-ip6: yes"@),
        has_line(unbound_conf(c, acls, hosts, leases, domains, resolv), "    do-udp: yes"@),
        has_line(unbound_conf(c, acls, hosts, leases, domains, resolv), "    do-tcp: yes"@),
        has_line(unbound_conf(c, acls, hosts, leases, domains, resolv),
            "    hide-identity: "@ + (if c.hide_identity { "yes"@ } else { "no"@ })),
        has_line(unbound_conf(c, acls, hosts, leases, domains, resolv),
            "    hide-version: "@ + (if c.hide_version { "yes"@ } else { "no"@ })),
        has_line(unbound_conf(c, acls, hosts, leases, domains, resolv),
            "    prefetch: "@ + (if c.prefetch { "yes"@ } else { "no"@ })),
        has_line(unbound_conf(c, acls, hosts, leases, domains, resolv),
            "    prefetch-key: "@ + (if c.prefetch_key { "yes"@ } else { "no"@ })),
        has_line(unbound_conf(c, acls, hosts, leases, domains, resolv),
            "    num-threads: "@ + dec(c.num_threads as nat)),
        has_line(unbound_conf(c, acls, hosts, leases, domains, resolv), "    msg-cache-size: "@ + c.msg_cache_size),
        has_line(unbound_conf(c, acls, hosts, leases, domains, resolv), "    rrset-cache-size: "@ + c.rrset_cache_size),
        has_line(unbound_conf(c, acls, hosts, leases, domains, resolv),
            "    cache-max-ttl: "@ + dec(c.cache_max_ttl as nat)),
        has_line(unbound_conf(c, acls, hosts, leases, domains, resolv),
            "    cache-min-ttl: "@ + dec(c.cache_min_ttl as nat)),
        has_line(unbound_conf(c, acls, hosts, leases, domains, resolv),
            "    infra-host-ttl: "@ + dec(c.infra_host_ttl as nat)),
        has_line(unbound_conf(c, acls, hosts, leases, domains, resolv),
            "    unwanted-reply-threshold: "@ + dec(c.unwanted_reply_threshold as nat)),
        has_line(unbound_conf(c, acls, hosts, leases, domains, resolv),
            "    verbosity: "@ + dec(c.log_verbosity as nat)),
{
    let l = base_lines(c);
    let s = server_lines(c, acls);
    assert forall|k: int| 0 <= k < l.len() implies has_line(unbound_conf(c, acls, hosts, leases, domains, resolv),
        #[trigger] l[k]) by {
        lemma_in_server(c, acls, k);
        lemma_server_line(c, acls, hosts, leases, domains, resolv, l[k]);
    }
    assert(l[0] == "    username: unbound"@);
    assert(l[1] == "    directory: /var/unbound"@);
    assert(l[2] == "    chroot: \"\""@);
    assert(l[3] == "    pidfile: /var/run/local_unbound.pid"@);
    assert(l[4] == "    auto-trust-anchor-file: /var/unbound/root.key"@);
    assert(l[5] == "    port: "@ + dec(c.port as nat));
    assert(l[6] == "    do-daemonize: yes"@);
    assert(l[7] == "    outgoing-range: "@ + dec(outgoing_range(c.num_threads as nat)));
    assert(l[9] == "    access-control: 0.0.0.0/0 allow"@);
    assert(l[10] == "    access-control: ::0/0 allow"@);
    assert(l[11] == "    do-ip4: yes"@);
    assert(l[12] == "    do-ip6: yes"@);
    assert(l[13] == "    do-udp: yes"@);
    assert(l[14] == "    do-tcp: yes"@);
    assert(l[15] == "    hide-identity: "@ + (if c.hide_identity { "yes"@ } else { "no"@ }));
    assert(l[16] == "    hide-version: "@ + (if c.hide_version { "yes"@ } else { "no"@ }));
    assert(l[17] == "    prefetch: "@ + (if c.prefetch { "yes"@ } else { "no"@ }));
    assert(l[18] == "    prefetch-key: "@ + (if c.prefetch_key { "yes"@ } else { "no"@ }));
    assert(l[19] == "    num-threads: "@ + dec(c.num_threads as nat));
    assert(l[20] == "    msg-cache-size: "@ + c.msg_cache_size);
    assert(l[21] == "    rrset-cache-size: "@ + c.rrset_cache_size);
    assert(l[22] == "    cache-max-ttl: "@ + dec(c.cache_max_ttl as nat));
    assert(l[23] == "    cache-min-ttl: "@ + dec(c.cache_min_ttl as nat));
    assert(l[24] == "    infra-host-ttl: "@ + dec(c.infra_host_ttl as nat));
    assert(l[25] == "    unwanted-reply-threshold: "@ + dec(c.unwanted_reply_threshold as nat));
    assert(l[26] == "    verbosity: "@ + dec(c.log_verbosity as nat));
}

/// The resolver listens on every interface that it is given.
pub proof fn listening_interfaces_are_written(
    c: ResolverView,
    acls: Seq<AccessListEntry>,
    hosts: Seq<HostOverride>,
    leases: Seq<Lease>,
    domains: Seq<DomainOverride>,
    resolv: Option<Seq<char>>,
    i: int,
)
    requires
        0 <= i < c.listen_interfaces.len(),
    ensures
        has_line(unbound_conf(c, acls, hosts, leases, domains, resolv), "    interface: "@ + c.listen_interfaces[i]),
{
    lemma_line_break();
    let n = seq!['\n'];
    let w = wrapped("    interface: "@, c.listen_interfaces, Seq::empty());
    let block = join(w, n);
    assert(base_lines(c)[8] == block);
    lemma_in_server(c, acls, 8);
    lemma_server_line(c, acls, hosts, leases, domains, resolv, block);
    parts_stand_apart(w, i, n);
    assert(w[i] =~= "    interface: "@ + c.listen_interfaces[i]);
    within_is_transitive(unbound_conf(c, acls, hosts, leases, domains, resolv), n + block + n, n + w[i] + n);
}

/// Every entry of the access list gets its line: the network, then what is done
/// with its queries.
pub proof fn access_lists_are_written(
    c: ResolverView,
    acls: Seq<AccessListEntry>,
    hosts: Seq<HostOverride>,
    leases: Seq<Lease>,
    domains: Seq<DomainOverride>,
    resolv: Option<Seq<char>>,
    i: int,
)
    requires
        0 <= i < acls.len(),
    ensures
        has_line(unbound_conf(c, acls, hosts, leases, domains, resolv),
            "    access-control: "@ + acls[i].network@ + " "@ + acls[i].action@),
{
    let l = server_lines(c, acls);
    let k = l.len() - acls.len() + i;
    assert(l[k] == access_line(acls[i]));
    assert(l.contains(l[k]));
    lemma_server_line(c, acls, hosts, leases, domains, resolv, l[k]);
}

/// What may be switched on is written where it is on, and the server has no line
/// besides.
pub proof fn switches_are_written(
    c: ResolverView,
    acls: Seq<AccessListEntry>,
    hosts: Seq<HostOverride>,
    leases: Seq<Lease>,
    domains: Seq<DomainOverride>,
    resolv: Option<Seq<char>>,
)
    ensures
        c.dnssec ==> has_line(unbound_conf(c, acls, hosts, leases, domains, resolv),
            "    auto-trust-anchor-file: /usr/local/etc/unbound/root.key"@),
        c.log_queries ==> has_line(unbound_conf(c, acls, hosts, leases, domains, resolv), "    log-queries: yes"@),
        c.log_replies ==> has_line(unbound_conf(c, acls, hosts, leases, domains, resolv), "    log-replies: yes"@),
        c.rebind_protection ==> forall|i: int|
            0 <= i < c.private_addresses.len() ==> has_line(
                unbound_conf(c, acls, hosts, leases, domains, resolv),
                "    private-address: "@ + #[trigger] c.private_addresses[i],
            ),
        c.outgoing_interface is Some ==> has_line(unbound_conf(c, acls, hosts, leases, domains, resolv),
            "    outgoing-interface: "@ + c.outgoing_interface->0),
        server_lines(c, acls).len() == 27 + (if c.dnssec {
            1int
        } else {
            0
        }) + (if c.log_queries {
            1int
        } else {
            0
        }) + (if c.log_replies {
            1int
        } else {
            0
        }) + (if c.rebind_protection {
            c.private_addresses.len() as int
        } else {
            0
        }) + (if c.outgoing_interface is Some {
            1int
        } else {
            0
        }) + acls.len(),
{
    let l = server_lines(c, acls);
    let b: int = 27;
    if c.dnssec {
        assert(l[b] == "    auto-trust-anchor-file: /usr/local/etc/unbound/root.key"@);
        lemma_server_line(c, acls, hosts, leases, domains, resolv, l[b]);
    }
    let b1: int = if c.dnssec { b + 1 } else { b };
    if c.log_queries {
        assert(l[b1] == "    log-queries: yes"@);
        lemma_server_line(c, acls, hosts, leases, domains, resolv, l[b1]);
    }
    let b2: int = if c.log_queries { b1 + 1 } else { b1 };
    if c.log_replies {
        assert(l[b2] == "    log-replies: yes"@);
        lemma_server_line(c, acls, hosts, leases, domains, resolv, l[b2]);
    }
    let b3: int = if c.log_replies { b2 + 1 } else { b2 };
    if c.rebind_protection {
        let w = wrapped("    private-address: "@, c.private_addresses, Seq::empty());
        assert forall|i: int| 0 <= i < c.private_addresses.len() implies has_line(
            unbound_conf(c, acls, hosts, leases, domains, resolv),
            "    private-address: "@ + #[trigger] c.private_addresses[i],
        ) by {
            assert(l[b3 + i] == w[i]);
            assert(w[i] =~= "    private-address: "@ + c.private_addresses[i]);
            lemma_server_line(c, acls, hosts, leases, domains, resolv, l[b3 + i]);
        }
    }
    let b4: int = if c.rebind_protection { b3 + c.private_addresses.len() } else { b3 };
    if c.outgoing_interface is Some {
        assert(l[b4] == "    outgoing-interface: "@ + c.outgoing_interface->0);
        lemma_server_line(c, acls, hosts, leases, domains, resolv, l[b4]);
    }
}

/// The threads share the descriptors that there are: at most 896 all together,
/// unless each needs its 64.
pub proof fn threads_share_the_descriptors(threads: nat)
    ensures
        outgoing_range(0) == outgoing_range(1),
        outgoing_range(threads) >= 64,
        threads > 0 && outgoing_range(threads) > 64 ==> outgoing_range(threads) * threads <= 896,
        threads > 0 ==> (outgoing_range(threads) + 1) * threads > 896,
{
    if threads > 0 {
        let t = threads as int;
        let q = 896int / t;
        vstd::arithmetic::div_mod::lemma_fundamental_div_mod(896, t);
        vstd::arithmetic::div_mod::lemma_mod_bound(896, t);
        assert(t * q == q * t) by (nonlinear_arith);
        assert((q + 1) * t == q * t + t) by (nonlinear_arith);
        let r = outgoing_range(threads) as int;
        if q < 64 {
            assert((r + 1) * t >= (q + 1) * t) by (nonlinear_arith)
                requires
                    r >= q,
                    t > 0,
            ;
        }
    }
}

// ---------------------------------------------------------------------------
// Local data
// ---------------------------------------------------------------------------

/// The hosts are taken one after the other, and a host that is switched off has
/// no line.
pub proof fn hosts_in_order(a: Seq<HostOverride>, b: Seq<HostOverride>, h: HostOverride)
    ensures
        hosts_lines(Seq::<HostOverride>::empty()) == Seq::<Seq<char>>::empty(),
        hosts_lines(a + b) == hosts_lines(a) + hosts_lines(b),
        h.enabled ==> hosts_lines(Seq::<HostOverride>::empty().push(h)) == host_lines(h),
        !h.enabled ==> hosts_lines(Seq::<HostOverride>::empty().push(h)) == Seq::<Seq<char>>::empty(),
    decreases b.len(),
{
    reveal_with_fuel(hosts_lines, 2);
    assert(Seq::<HostOverride>::empty().push(h).drop_last() =~= Seq::<HostOverride>::empty());
    assert(Seq::<Seq<char>>::empty() + host_lines(h) =~= host_lines(h));
    if b.len() == 0 {
        assert(a + b =~= a);
        assert(hosts_lines(a) + hosts_lines(b) =~= hosts_lines(a));
    } else {
        assert((a + b).drop_last() =~= a + b.drop_last());
        hosts_in_order(a, b.drop_last(), h);
        assert(hosts_lines(a + b) =~= hosts_lines(a) + hosts_lines(b));
    }
}

proof fn lemma_host_record(h: HostOverride, name: Seq<char>)
    requires
        name == fqdn(h),
    ensures
        h.record_type@ == "A"@ ==> host_lines(h).len() > 0
            && host_lines(h)[0] == "    local-data: \""@ + name + " IN A "@ + h.value@
            + "\""@,
        h.record_type@ == "A"@ && split(h.value@, '.').len() == 4 ==> host_lines(h).len() == 2 && host_lines(h)[1]
            == "    local-data-ptr: \""@ + h.value@ + " "@ + name + "\""@,
        h.record_type@ == "AAAA"@ ==> host_lines(h).len() == 1
            && host_lines(h)[0] == "    local-data: \""@ + name + " IN AAAA "@
            + h.value@ + "\""@,
        h.record_type@ == "CNAME"@ ==> host_lines(h).len() == 1
            && host_lines(h)[0] == "    local-data: \""@ + name + " IN CNAME "@
            + h.value@ + "\""@,
        h.record_type@ == "TXT"@ ==> host_lines(h).len() == 1
            && host_lines(h)[0] == "    local-data: '"@ + name + " IN TXT \""@
            + h.value@ + "\"'"@,
        h.record_type@ == "MX"@ && h.mx_priority is Some ==> host_lines(h).len() == 1
            && host_lines(h)[0] == "    local-data: \""@
            + name + " IN MX "@ + dec(h.mx_priority->0 as nat) + " "@ + h.value@ + "\""@,
        h.record_type@ == "MX"@ && h.mx_priority is None ==> host_lines(h).len() == 1
            && host_lines(h)[0] == "    local-data: \""@
            + name + " IN MX "@ + dec(10) + " "@ + h.value@ + "\""@,
{
    lemma_kinds_differ();
}

proof fn lemma_kinds_differ()
    ensures
        "A"@ != "AAAA"@,
        "A"@ != "MX"@,
        "A"@ != "CNAME"@,
        "A"@ != "TXT"@,
        "AAAA"@ != "MX"@,
        "AAAA"@ != "CNAME"@,
        "AAAA"@ != "TXT"@,
        "MX"@ != "CNAME"@,
        "MX"@ != "TXT"@,
        "CNAME"@ != "TXT"@,
{
    reveal_strlit("A");
    reveal_strlit("AAAA");
    reveal_strlit("MX");
    reveal_strlit("CNAME");
    reveal_strlit("TXT");
    assert("A"@.len() == 1 && "AAAA"@.len() == 4 && "MX"@.len() == 2 && "CNAME"@.len() == 5 && "TXT"@.len() == 3);
}

/// Each host that is switched on is answered with the record that it is given:
/// its full name leads to its value, and the address of an `A` record leads back.
pub proof fn hosts_are_written(
    c: ResolverView,
    acls: Seq<AccessListEntry>,
    hosts: Seq<HostOverride>,
    leases: Seq<Lease>,
    domains: Seq<DomainOverride>,
    resolv: Option<Seq<char>>,
    i: int,
    name: Seq<char>,
)
    requires
        0 <= i < hosts.len(),
        hosts[i].enabled,
        hosts[i].domain@.len() == 0 ==> name == hosts[i].hostname@,
        hosts[i].domain@.len() > 0 ==> name == hosts[i].hostname@ + "."@ + hosts[i].domain@,
    ensures
        hosts[i].record_type@ == "A"@ ==> has_line(unbound_conf(c, acls, hosts, leases, domains, resolv),
            "    local-data: \""@ + name + " IN A "@ + hosts[i].value@ + "\""@),
        hosts[i].record_type@ == "A"@ && split(hosts[i].value@, '.').len() == 4 ==> has_line(
            unbound_conf(c, acls, hosts, leases, domains, resolv),
            "    local-data-ptr: \""@ + hosts[i].value@ + " "@ + name + "\""@,
        ),
        hosts[i].record_type@ == "AAAA"@ ==> has_line(unbound_conf(c, acls, hosts, leases, domains, resolv),
            "    local-data: \""@ + name + " IN AAAA "@ + hosts[i].value@ + "\""@),
        hosts[i].record_type@ == "CNAME"@
            ==> has_line(unbound_conf(c, acls, hosts, leases, domains, resolv),
            "    local-data: \""@ + name + " IN CNAME "@ + hosts[i].value@ + "\""@),
        hosts[i].record_type@ == "TXT"@ ==> has_line(unbound_conf(c, acls, hosts, leases, domains, resolv),
            "    local-data: '"@ + name + " IN TXT \""@ + hosts[i].value@ + "\"'"@),
        hosts[i].record_type@ == "MX"@ && hosts[i].mx_priority is Some ==> has_line(
            unbound_conf(c, acls, hosts, leases, domains, resolv),
            "    local-data: \""@ + name + " IN MX "@ + dec(hosts[i].mx_priority->0 as nat) + " "@ + hosts[i].value@
                + "\""@,
        ),
        hosts[i].record_type@ == "MX"@ && hosts[i].mx_priority is None ==> has_line(
            unbound_conf(c, acls, hosts, leases, domains, resolv),
            "    local-data: \""@ + name + " IN MX "@ + dec(10) + " "@ + hosts[i].value@ + "\""@,
        ),
{
    let h = hosts[i];
    let one = Seq::<HostOverride>::empty().push(h);
    assert(hosts =~= hosts.take(i) + one + hosts.skip(i + 1));
    hosts_in_order(hosts.take(i), one, h);
    hosts_in_order(hosts.take(i) + one, hosts.skip(i + 1), h);
    let l = host_lines(h);
    lemma_host_record(h, name);
    assert forall|k: int| 0 <= k < l.len() implies has_line(unbound_conf(c, acls, hosts, leases, domains, resolv),
        #[trigger] l[k]) by {
        append_holds(hosts_lines(hosts.take(i)), l, l[k]);
        append_holds(hosts_lines(hosts.take(i) + one), hosts_lines(hosts.skip(i + 1)), l[k]);
        append_holds(hosts_lines(hosts), leases_lines(leases), l[k]);
        lemma_data_line(c, acls, hosts, leases, domains, resolv, l[k]);
    }
    assert(l.len() > 0 ==> has_line(unbound_conf(c, acls, hosts, leases, domains, resolv), l[0]));
    assert(l.len() > 1 ==> has_line(unbound_conf(c, acls, hosts, leases, domains, resolv), l[1]));
}

/// The leases are taken one after the other.
pub proof fn leases_in_order(a: Seq<Lease>, b: Seq<Lease>, x: Lease)
    ensures
        leases_lines(Seq::<Lease>::empty()) == Seq::<Seq<char>>::empty(),
        leases_lines(a + b) == leases_lines(a) + leases_lines(b),
        leases_lines(Seq::<Lease>::empty().push(x)) == lease_lines(x),
    decreases b.len(),
{
    reveal_with_fuel(leases_lines, 2);
    assert(Seq::<Lease>::empty().push(x).drop_last() =~= Seq::<Lease>::empty());
    assert(Seq::<Seq<char>>::empty() + lease_lines(x) =~= lease_lines(x));
    if b.len() == 0 {
        assert(a + b =~= a);
        assert(leases_lines(a) + leases_lines(b) =~= leases_lines(a));
    } else {
        assert((a + b).drop_last() =~= a + b.drop_last());
        leases_in_order(a, b.drop_last(), x);
        assert(leases_lines(a + b) =~= leases_lines(a) + leases_lines(b));
    }
}

/// Where leases are registered, each one that has a name and an address is
/// answered in both directions; where they are not, none is.
pub proof fn leases_are_written(
    c: ResolverView,
    acls: Seq<AccessListEntry>,
    hosts: Seq<HostOverride>,
    leases: Seq<Lease>,
    domains: Seq<DomainOverride>,
    resolv: Option<Seq<char>>,
    i: int,
)
    ensures
        c.register_dhcp && 0 <= i < leases.len() && leases[i].ip@.len() > 0 && leases[i].hostname@.len() > 0
            ==> has_line(
            unbound_conf(c, acls, hosts, leases, domains, resolv),
            "    local-data: \""@ + leases[i].hostname@ + " IN A "@ + leases[i].ip@ + "\""@,
        ) && has_line(unbound_conf(c, acls, hosts, leases, domains, resolv),
            "    local-data-ptr: \""@ + leases[i].ip@ + " "@ + leases[i].hostname@ + "\""@),
        !c.register_dhcp ==> unbound_conf(c, acls, hosts, leases, domains, resolv) == unbound_conf(c, acls, hosts,
            Seq::<Lease>::empty(), domains, resolv),
{
    if c.register_dhcp && 0 <= i < leases.len() && leases[i].ip@.len() > 0 && leases[i].hostname@.len() > 0 {
        let x = leases[i];
        let one = Seq::<Lease>::empty().push(x);
        assert(leases =~= leases.take(i) + one + leases.skip(i + 1));
        leases_in_order(leases.take(i), one, x);
        leases_in_order(leases.take(i) + one, leases.skip(i + 1), x);
        let l = lease_lines(x);
        assert forall|k: int| 0 <= k < l.len() implies has_line(unbound_conf(c, acls, hosts, leases, domains, resolv),
            #[trigger] l[k]) by {
            append_holds(leases_lines(leases.take(i)), l, l[k]);
            append_holds(leases_lines(leases.take(i) + one), leases_lines(leases.skip(i + 1)), l[k]);
            append_holds(hosts_lines(hosts), leases_lines(leases), l[k]);
            lemma_data_line(c, acls, hosts, leases, domains, resolv, l[k]);
        }
        assert(has_line(unbound_conf(c, acls, hosts, leases, domains, resolv), l[0])
            && has_line(unbound_conf(c, acls, hosts, leases, domains, resolv), l[1]));
    }
}

// ---------------------------------------------------------------------------
// Zones
// ---------------------------------------------------------------------------

/// The domains are taken one after the other, and a domain that is switched off
/// has no zone.
pub proof fn domains_in_order(a: Seq<DomainOverride>, b: Seq<DomainOverride>, d: DomainOverride)
    ensures
        domain_zones(Seq::<DomainOverride>::empty()) == Seq::<Seq<char>>::empty(),
        domain_zones(a + b) == domain_zones(a) + domain_zones(b),
        d.enabled ==> domain_zones(Seq::<DomainOverride>::empty().push(d))
            == Seq::<Seq<char>>::empty().push(domain_zone(d)),
        !d.enabled ==> domain_zones(Seq::<DomainOverride>::empty().push(d)) == Seq::<Seq<char>>::empty(),
    decreases b.len(),
{
    reveal_with_fuel(domain_zones, 2);
    assert(Seq::<DomainOverride>::empty().push(d).drop_last() =~= Seq::<DomainOverride>::empty());
    if b.len() == 0 {
        assert(a + b =~= a);
        assert(domain_zones(a) + domain_zones(b) =~= domain_zones(a));
    } else {
        assert((a + b).drop_last() =~= a + b.drop_last());
        domains_in_order(a, b.drop_last(), d);
        assert(domain_zones(a + b) =~= domain_zones(a) + domain_zones(b));
    }
}

/// Every domain that is switched on gets a zone whose queries go to the server
/// of that domain.
pub proof fn domains_are_forwarded(
    c: ResolverView,
    acls: Seq<AccessListEntry>,
    hosts: Seq<HostOverride>,
    leases: Seq<Lease>,
    domains: Seq<DomainOverride>,
    resolv: Option<Seq<char>>,
    i: int,
)
    requires
        0 <= i < domains.len(),
        domains[i].enabled,
    ensures
        has_line(
            unbound_conf(c, acls, hosts, leases, domains, resolv),
            "forward-zone:\n    name: \""@ + domains[i].domain@ + "\"\n    forward-addr: "@ + domains[i].server@
                + "\n"@,
        ),
        has_line(unbound_conf(c, acls, hosts, leases, domains, resolv), "    forward-addr: "@ + domains[i].server@),
{
    let d = domains[i];
    let z = domain_zone(d);
    let one = Seq::<DomainOverride>::empty().push(d);
    assert(domains =~= domains.take(i) + one + domains.skip(i + 1));
    domains_in_order(domains.take(i), one, d);
    domains_in_order(domains.take(i) + one, domains.skip(i + 1), d);
    assert(domain_zones(one)[0] == z);
    append_holds(domain_zones(domains.take(i)), domain_zones(one), z);
    append_holds(domain_zones(domains.take(i) + one), domain_zones(domains.skip(i + 1)), z);
    append_holds(root_zone(c, resolv), domain_zones(domains), z);
    lemma_zone(c, acls, hosts, leases, domains, resolv, z);
    lemma_server_of_zone(d);
    within_is_transitive(unbound_conf(c, acls, hosts, leases, domains, resolv), seq!['\n'] + z + seq!['\n'],
        seq!['\n'] + ("    forward-addr: "@ + d.server@) + seq!['\n']);
}

proof fn lemma_server_of_zone(d: DomainOverride)
    ensures
        has_text(
            seq!['\n'] + domain_zone(d) + seq!['\n'],
            seq!['\n'] + ("    forward-addr: "@ + d.server@) + seq!['\n'],
        ),
{
    lemma_line_break();
    let n = seq!['\n'];
    let q = seq!['"'];
    let server = "    forward-addr: "@;
    reveal_strlit("\"\n    forward-addr: ");
    reveal_strlit("    forward-addr: ");
    assert("\"\n    forward-addr: "@ =~= q + n + server);
    lemma_zone_parts("forward-zone:\n    name: \""@, d.domain@, q, n, server, d.server@);
    text_is_within(n + ("forward-zone:\n    name: \""@ + d.domain@ + q), n + (server + d.server@) + n, n);
}

proof fn lemma_zone_parts(a: Seq<char>, d: Seq<char>, q: Seq<char>, n: Seq<char>, s: Seq<char>, v: Seq<char>)
    ensures
        n + (a + d + (q + n + s) + v + n) + n == (n + (a + d + q)) + (n + (s + v) + n) + n,
{
    assert(n + (a + d + (q + n + s) + v + n) + n =~= (n + (a + d + q)) + (n + (s + v) + n) + n);
}

/// Another server makes another file.
pub proof fn servers_tell_files_apart(
    c: ResolverView,
    acls: Seq<AccessListEntry>,
    hosts: Seq<HostOverride>,
    leases: Seq<Lease>,
    domains: Seq<DomainOverride>,
    resolv: Option<Seq<char>>,
    i: int,
    d: DomainOverride,
)
    requires
        0 <= i < domains.len(),
        domains[i].enabled,
        d.enabled,
        d.domain@ == domains[i].domain@,
        d.server@ != domains[i].server@,
    ensures
        unbound_conf(c, acls, hosts, leases, domains.update(i, d), resolv) != unbound_conf(c, acls, hosts, leases,
            domains, resolv),
{
    let x = domains[i];
    let u = domains.update(i, d);
    let one = Seq::<DomainOverride>::empty().push(x);
    let two = Seq::<DomainOverride>::empty().push(d);
    assert(domains =~= domains.take(i) + one + domains.skip(i + 1));
    assert(u =~= domains.take(i) + two + domains.skip(i + 1));
    domains_in_order(domains.take(i), one, x);
    domains_in_order(domains.take(i) + one, domains.skip(i + 1), x);
    domains_in_order(domains.take(i), two, d);
    domains_in_order(domains.take(i) + two, domains.skip(i + 1), d);
    let root = root_zone(c, resolv);
    let l = root + domain_zones(domains);
    let k = root.len() + domain_zones(domains.take(i)).len();
    assert(l[k as int] == domain_zone(x));
    assert(root + domain_zones(u) =~= l.update(k as int, domain_zone(d)));
    let p = "forward-zone:\n    name: \""@ + x.domain@ + "\"\n    forward-addr: "@;
    if domain_zone(d) == domain_zone(x) {
        let q = "\n"@;
        assert(domain_zone(d) == p + d.server@ + q);
        assert(domain_zone(x) == p + x.server@ + q);
        assert((p + d.server@ + q).len() == p.len() + d.server@.len() + q.len());
        assert((p + x.server@ + q).len() == p.len() + x.server@.len() + q.len());
        assert forall|j: int| 0 <= j < d.server@.len() implies d.server@[j] == x.server@[j] by {
            assert((p + d.server@ + q)[p.len() + j] == d.server@[j]);
            assert((p + x.server@ + q)[p.len() + j] == x.server@[j]);
        }
        assert(d.server@ =~= x.server@);
    }
    join_tells_parts_apart(l, k as int, domain_zone(d), "\n"@);
    let n = "\n"@;
    let before = "# AiFw Unbound Configuration — Auto-generated\n# Do not edit manually\n\nserver:\n"@
        + join(server_lines(c, acls), n) + n
        + join(local_data(c, hosts, leases), n) + custom_block(c.custom_options) + n + control() + n;
    lemma_middle(before, join(l, n), join(l.update(k as int, domain_zone(d)), n), n);
}

proof fn lemma_middle(a: Seq<char>, x: Seq<char>, y: Seq<char>, b: Seq<char>)
    requires
        x != y,
    ensures
        a + x + b != a + y + b,
{
    if a + x + b == a + y + b {
        assert((a + x + b).len() == a.len() + x.len() + b.len());
        assert((a + y + b).len() == a.len() + y.len() + b.len());
        assert forall|j: int| 0 <= j < x.len() implies x[j] == y[j] by {
            assert((a + x + b)[a.len() + j] == x[j]);
            assert((a + y + b)[a.len() + j] == y[j]);
        }
        assert(x =~= y);
    }
}

/// Where queries go by TLS, every upstream server is asked by TLS for the whole
/// tree of names; else, where forwarding is on, every forwarder is asked first.
/// Without either there is no zone for the whole tree.
pub proof fn whole_tree_is_forwarded(
    c: ResolverView,
    acls: Seq<AccessListEntry>,
    hosts: Seq<HostOverride>,
    leases: Seq<Lease>,
    domains: Seq<DomainOverride>,
    resolv: Option<Seq<char>>,
    i: int,
)
    ensures
        c.dot_enabled && 0 <= i < c.dot_upstream.len() ==> has_text(
            unbound_conf(c, acls, hosts, leases, domains, resolv),
            "forward-zone:\n    name: \".\"\n    forward-tls-upstream: yes\n"@,
        ) && has_text(unbound_conf(c, acls, hosts, leases, domains, resolv),
            "    forward-addr: "@ + c.dot_upstream[i] + "\n"@),
        (!c.dot_enabled || c.dot_upstream.len() == 0) && c.forwarding_enabled && 0 <= i < forwarders(c, resolv).len()
            ==> has_text(unbound_conf(c, acls, hosts, leases, domains, resolv),
                "forward-zone:\n    name: \".\"\n    forward-first: yes\n"@) && has_text(
            unbound_conf(c, acls, hosts, leases, domains, resolv),
            "    forward-addr: "@ + forwarders(c, resolv)[i] + "\n"@,
        ),
        (!c.dot_enabled || c.dot_upstream.len() == 0) && (!c.forwarding_enabled || forwarders(c, resolv).len() == 0)
            ==> root_zone(c, resolv).len() == 0,
{
    let e = Seq::<char>::empty();
    let r = root_zone(c, resolv);
    let f = unbound_conf(c, acls, hosts, leases, domains, resolv);
    if r.len() > 0 {
        let tls = c.dot_enabled && c.dot_upstream.len() > 0;
        let up = if tls {
            c.dot_upstream
        } else {
            forwarders(c, resolv)
        };
        let top = if tls {
            "forward-zone:\n    name: \".\"\n    forward-tls-upstream: yes\n"@
        } else {
            "forward-zone:\n    name: \".\"\n    forward-first: yes\n"@
        };
        let w = wrapped("    forward-addr: "@, up, "\n"@);
        assert(r[0] == top + concat(w));
        append_holds(r, domain_zones(domains), r[0]);
        lemma_zone(c, acls, hosts, leases, domains, resolv, r[0]);
        let n = seq!['\n'];
        let z = r[0];
        text_is_within(n, z, n);
        within_is_transitive(f, n + z + n, z);
        text_is_within(e, top, concat(w));
        assert(e + top + concat(w) =~= z);
        within_is_transitive(f, z, top);
        if 0 <= i < up.len() {
            crate::lists::join_around(w, i, e);
            text_is_within(top + crate::lists::joined_before(w, i, e), w[i], crate::lists::joined_behind(w, i, e));
            assert(top + crate::lists::joined_before(w, i, e) + w[i] + crate::lists::joined_behind(w, i, e) =~= z);
            within_is_transitive(f, z, w[i]);
            assert(w[i] == "    forward-addr: "@ + up[i] + "\n"@);
        }
    }
}

/// The forwarders are the servers of the settings that are not empty, in their
/// order; the system's own are added behind them only where that is wanted.
pub proof fn own_forwarders_come_first(c: ResolverView, text: Seq<char>, x: Seq<char>)
    ensures
        forwarders(c, None) == filled_only(c.forwarding_servers),
        !c.use_system_nameservers ==> forwarders(c, Some(text)) == filled_only(c.forwarding_servers),
        c.use_system_nameservers ==> filled_only(c.forwarding_servers).len() <= forwarders(c, Some(text)).len()
            && forwarders(c, Some(text)).take(filled_only(c.forwarding_servers).len() as int) == filled_only(
            c.forwarding_servers,
        ),
        filled_only(c.forwarding_servers).contains(x) <==> c.forwarding_servers.contains(x) && x.len() > 0,
{
    lemma_resolv_grows(filled_only(c.forwarding_servers), lines(text));
    lemma_filled(c.forwarding_servers, x);
    let own = filled_only(c.forwarding_servers);
    assert(own.take(own.len() as int) =~= own);
}

proof fn lemma_filled(l: Seq<Seq<char>>, x: Seq<char>)
    ensures
        filled_only(l).contains(x) <==> l.contains(x) && x.len() > 0,
    decreases l.len(),
{
    if l.len() > 0 {
        lemma_filled(l.drop_last(), x);
        assert(l =~= l.drop_last().push(l.last()));
        push_holds(l.drop_last(), l.last(), x);
        push_holds(filled_only(l.drop_last()), l.last(), x);
    }
}

proof fn lemma_resolv_grows(own: Seq<Seq<char>>, ls: Seq<Seq<char>>)
    ensures
        own.len() <= after_resolv_lines(own, ls).len(),
        after_resolv_lines(own, ls).take(own.len() as int) == own,
    decreases ls.len(),
{
    if ls.len() == 0 {
        assert(own.take(own.len() as int) =~= own);
    } else {
        lemma_resolv_grows(own, ls.drop_last());
        let a = after_resolv_lines(own, ls.drop_last());
        assert(after_resolv_lines(own, ls).take(own.len() as int) =~= a.take(own.len() as int));
    }
}

/// The system's own name server of a line is added where it is not there yet and
/// is not this machine itself; any other line adds nothing.
pub proof fn system_servers_are_added(addrs: Seq<Seq<char>>, ns: Seq<char>, line: Seq<char>)
    requires
        trim(line) == "nameserver"@ + ns,
    ensures
        trim(ns) != "127.0.0.1"@ && trim(ns) != "::1"@ && !addrs.contains(trim(ns)) ==> after_resolv_line(addrs, line)
            == addrs.push(trim(ns)),
        trim(ns) == "127.0.0.1"@ || trim(ns) == "::1"@ || addrs.contains(trim(ns)) ==> after_resolv_line(addrs, line)
            == addrs,
{
    let t = trim(line);
    assert(t.take("nameserver"@.len() as int) =~= "nameserver"@);
    assert(t.skip("nameserver"@.len() as int) =~= ns);
}

/// A line of another kind adds no server.
pub proof fn other_lines_add_no_server(addrs: Seq<Seq<char>>, line: Seq<char>)
    requires
        !has_prefix(trim(line), "nameserver"@),
    ensures
        after_resolv_line(addrs, line) == addrs,
{
}

/// Each line of the operator's own options stands in the server's section,
/// indented; without options there is nothing of them.
pub proof fn custom_options_are_written(
    c: ResolverView,
    acls: Seq<AccessListEntry>,
    hosts: Seq<HostOverride>,
    leases: Seq<Lease>,
    domains: Seq<DomainOverride>,
    resolv: Option<Seq<char>>,
    i: int,
)
    requires
        0 <= i < lines(c.custom_options).len(),
        c.custom_options.len() > 0,
    ensures
        has_line(unbound_conf(c, acls, hosts, leases, domains, resolv), "    "@ + lines(c.custom_options)[i]),
{
    lemma_line_break();
    let n = seq!['\n'];
    let w = wrapped("    "@, lines(c.custom_options), Seq::empty());
    parts_stand_apart(w, i, n);
    assert(w[i] =~= "    "@ + lines(c.custom_options)[i]);
    let top = "\n    # Custom options\n"@;
    reveal_strlit("\n    # Custom options\n");
    assert(top =~= top.drop_last() + n);
    let j = join(server_lines(c, acls), n);
    let d = join(local_data(c, hosts, leases), n);
    let z = join(root_zone(c, resolv) + domain_zones(domains), n);
    let before = head() + j + n + d + top.drop_last();
    let rest = control() + n + z + n;
    part_is_within(before, n + join(w, n) + n, rest, n + w[i] + n);
    assert(before + (n + join(w, n) + n) + rest =~= unbound_conf(c, acls, hosts, leases, domains, resolv));
}

/// The resolver can be controlled by its socket.
pub proof fn control_is_on(
    c: ResolverView,
    acls: Seq<AccessListEntry>,
    hosts: Seq<HostOverride>,
    leases: Seq<Lease>,
    domains: Seq<DomainOverride>,
    resolv: Option<Seq<char>>,
)
    ensures
        has_text(unbound_conf(c, acls, hosts, leases, domains, resolv),
            "remote-control:\n    control-enable: yes\n    control-interface: /var/unbound/unbound.ctl\n"@),
        c.custom_options.len() == 0 ==> custom_block(c.custom_options).len() == 0,
{
    lemma_line_break();
    let n = seq!['\n'];
    let p = "remote-control:\n    control-enable: yes\n    control-interface: /var/unbound/unbound.ctl\n"@;
    reveal_strlit("remote-control:\n    control-enable: yes\n    control-interface: /var/unbound/unbound.ctl\n");
    reveal_strlit("\nremote-control:\n    control-enable: yes\n    control-interface: /var/unbound/unbound.ctl\n");
    assert(control() =~= n + p);
    let j = join(server_lines(c, acls), n);
    let d = join(local_data(c, hosts, leases), n);
    let z = join(root_zone(c, resolv) + domain_zones(domains), n);
    let before = head() + j + n + d + custom_block(c.custom_options) + n + n;
    text_is_within(before, p, n + z + n);
    assert(before + p + (n + z + n) =~= unbound_conf(c, acls, hosts, leases, domains, resolv));
}

/// The file that is generated sends the queries of every domain that is switched on to the
/// server of that domain.
pub proof fn generated_file_forwards_domains(c: &ResolverConfig, acls: &Vec<AccessListEntry>,
    hosts: &Vec<HostOverride>, leases: &Vec<Lease>, domains: &Vec<DomainOverride>, r: String, i: int)
    requires
        call_ensures(generate_unbound_conf, (c, acls, hosts, leases, domains, None::<&str>), r),
        0 <= i < domains@.len(),
        domains@[i].enabled,
    ensures
        has_line(r@, "forward-zone:\n    name: \""@ + domains@[i].domain@ + "\"\n    forward-addr: "@
            + domains@[i].server@ + "\n"@),
{
    domains_are_forwarded(c@, acls@, hosts@, leases@, domains@, None, i);
}

} // verus!
