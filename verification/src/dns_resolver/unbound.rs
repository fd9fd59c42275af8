//! The configuration file of the `unbound` backend.

use vstd::prelude::*;
use vstd::string::*;

use crate::dns_resolver::config::{ResolverConfig, ResolverView};
use crate::dns_resolver::records::{AccessListEntry, DomainOverride, HostOverride, Lease};
use crate::number::{dec, fmt_u64};
use crate::text::{
    append_lines, cat2, cat3, cat4, cat5, concat, filled_only, has_prefix, join, join_text, keep_filled, lines,
    lines_of, list_contains, push_line, same, split, split_text, strip_prefix, trim, trimmed, views, wrap_all, wrapped,
};

verus! {

/// The words that the file uses for truth values.
pub open spec fn yes_no(b: bool) -> Seq<char> {
    if b {
        "yes"@
    } else {
        "no"@
    }
}

fn yes_no_str(b: bool) -> (r: &'static str)
    ensures
        r@ == yes_no(b),
{
    if b {
        "yes"
    } else {
        "no"
    }
}

/// How many sockets each thread may open. The event loop has 1024 descriptors
/// for all threads; 128 stay reserved, and no thread gets fewer than 64.
pub open spec fn outgoing_range(num_threads: nat) -> nat {
    let threads: nat = if num_threads == 0 {
        1
    } else {
        num_threads
    };
    if 896nat / threads < 64 {
        64
    } else {
        896nat / threads
    }
}

/// A line of the form `    name: value`.
pub open spec fn setting(name: Seq<char>, v: Seq<char>) -> Seq<char> {
    name + v
}

/// The lines of the `server:` section that every configuration has.
pub open spec fn base_lines(c: ResolverView) -> Seq<Seq<char>> {
    Seq::<Seq<char>>::empty()
        .push("    username: unbound"@)
        .push("    directory: /var/unbound"@)
        .push("    chroot: \"\""@)
        .push("    pidfile: /var/run/local_unbound.pid"@)
        .push("    auto-trust-anchor-file: /var/unbound/root.key"@)
        .push(setting("    port: "@, dec(c.port as nat)))
        .push("    do-daemonize: yes"@)
        .push(setting("    outgoing-range: "@, dec(outgoing_range(c.num_threads as nat))))
        .push(join(wrapped("    interface: "@, c.listen_interfaces, Seq::empty()), "\n"@))
        .push("    access-control: 0.0.0.0/0 allow"@)
        .push("    access-control: ::0/0 allow"@)
        .push("    do-ip4: yes"@)
        .push("    do-ip6: yes"@)
        .push("    do-udp: yes"@)
        .push("    do-tcp: yes"@)
        .push(setting("    hide-identity: "@, yes_no(c.hide_identity)))
        .push(setting("    hide-version: "@, yes_no(c.hide_version)))
        .push(setting("    prefetch: "@, yes_no(c.prefetch)))
        .push(setting("    prefetch-key: "@, yes_no(c.prefetch_key)))
        .push(setting("    num-threads: "@, dec(c.num_threads as nat)))
        .push(setting("    msg-cache-size: "@, c.msg_cache_size))
        .push(setting("    rrset-cache-size: "@, c.rrset_cache_size))
        .push(setting("    cache-max-ttl: "@, dec(c.cache_max_ttl as nat)))
        .push(setting("    cache-min-ttl: "@, dec(c.cache_min_ttl as nat)))
        .push(setting("    infra-host-ttl: "@, dec(c.infra_host_ttl as nat)))
        .push(setting("    unwanted-reply-threshold: "@, dec(c.unwanted_reply_threshold as nat)))
        .push(setting("    verbosity: "@, dec(c.log_verbosity as nat)))
}

/// The line that grants or denies a network.
pub open spec fn access_line(e: AccessListEntry) -> Seq<char> {
    "    access-control: "@ + e.network@ + " "@ + e.action@
}

/// The lines of the `server:` section.
pub open spec fn server_lines(c: ResolverView, acls: Seq<AccessListEntry>) -> Seq<Seq<char>> {
    let l = base_lines(c);
    let l = if c.dnssec {
        l.push("    auto-trust-anchor-file: /usr/local/etc/unbound/root.key"@)
    } else {
        l
    };
    let l = if c.log_queries {
        l.push("    log-queries: yes"@)
    } else {
        l
    };
    let l = if c.log_replies {
        l.push("    log-replies: yes"@)
    } else {
        l
    };
    let l = if c.rebind_protection {
        l + wrapped("    private-address: "@, c.private_addresses, Seq::empty())
    } else {
        l
    };
    let l = match c.outgoing_interface {
        Some(i) => l.push(setting("    outgoing-interface: "@, i)),
        None => l,
    };
    l + Seq::new(acls.len(), |i: int| access_line(acls[i]))
}

/// The fully qualified name of a host override.
pub open spec fn fqdn(h: HostOverride) -> Seq<char> {
    if h.domain@.len() == 0 {
        h.hostname@
    } else {
        h.hostname@ + "."@ + h.domain@
    }
}

/// The priority of an `MX` record that states none.
pub open spec fn mx_priority(h: HostOverride) -> nat {
    match h.mx_priority {
        Some(p) => p as nat,
        None => 10,
    }
}

/// The lines for one host: its record, and for an `A` record with four
/// dotted parts the reverse record too. Other record types have no line.
pub open spec fn host_lines(h: HostOverride) -> Seq<Seq<char>> {
    let e = Seq::<Seq<char>>::empty();
    if h.record_type@ == "A"@ {
        let l = e.push("    local-data: \""@ + fqdn(h) + " IN A "@ + h.value@ + "\""@);
        if split(h.value@, '.').len() == 4 {
            l.push("    local-data-ptr: \""@ + h.value@ + " "@ + fqdn(h) + "\""@)
        } else {
            l
        }
    } else if h.record_type@ == "AAAA"@ {
        e.push("    local-data: \""@ + fqdn(h) + " IN AAAA "@ + h.value@ + "\""@)
    } else if h.record_type@ == "MX"@ {
        e.push("    local-data: \""@ + fqdn(h) + " IN MX "@ + dec(mx_priority(h)) + " "@ + h.value@ + "\""@)
    } else if h.record_type@ == "CNAME"@ {
        e.push("    local-data: \""@ + fqdn(h) + " IN CNAME "@ + h.value@ + "\""@)
    } else if h.record_type@ == "TXT"@ {
        e.push("    local-data: '"@ + fqdn(h) + " IN TXT \""@ + h.value@ + "\"'"@)
    } else {
        e
    }
}

/// The lines for the enabled hosts, in order.
pub open spec fn hosts_lines(hs: Seq<HostOverride>) -> Seq<Seq<char>>
    decreases hs.len(),
{
    if hs.len() == 0 {
        Seq::<Seq<char>>::empty()
    } else if hs.last().enabled {
        hosts_lines(hs.drop_last()) + host_lines(hs.last())
    } else {
        hosts_lines(hs.drop_last())
    }
}

/// The two lines for a lease with an address and a name; other leases have none.
pub open spec fn lease_lines(l: Lease) -> Seq<Seq<char>> {
    let e = Seq::<Seq<char>>::empty();
    if l.ip@.len() > 0 && l.hostname@.len() > 0 {
        e.push("    local-data: \""@ + l.hostname@ + " IN A "@ + l.ip@ + "\""@).push(
            "    local-data-ptr: \""@ + l.ip@ + " "@ + l.hostname@ + "\""@,
        )
    } else {
        e
    }
}

/// The lines for the leases, in order.
pub open spec fn leases_lines(ls: Seq<Lease>) -> Seq<Seq<char>>
    decreases ls.len(),
{
    if ls.len() == 0 {
        Seq::<Seq<char>>::empty()
    } else {
        leases_lines(ls.drop_last()) + lease_lines(ls.last())
    }
}

/// The forwarders after one line of `resolv.conf`: a `nameserver` line adds
/// its address, unless it is this machine or listed already.
pub open spec fn after_resolv_line(addrs: Seq<Seq<char>>, line: Seq<char>) -> Seq<Seq<char>> {
    let t = trim(line);
    if has_prefix(t, "nameserver"@) {
        let ns = trim(t.skip("nameserver"@.len() as int));
        if ns != "127.0.0.1"@ && ns != "::1"@ && !addrs.contains(ns) {
            addrs.push(ns)
        } else {
            addrs
        }
    } else {
        addrs
    }
}

/// The forwarders after the lines of `resolv.conf`.
pub open spec fn after_resolv_lines(addrs: Seq<Seq<char>>, ls: Seq<Seq<char>>) -> Seq<Seq<char>>
    decreases ls.len(),
{
    if ls.len() == 0 {
        addrs
    } else {
        after_resolv_line(after_resolv_lines(addrs, ls.drop_last()), ls.last())
    }
}

/// The plain forwarders: the configured ones, then those of the system where
/// the settings ask for them and `resolv.conf` could be read.
pub open spec fn forwarders(c: ResolverView, resolv: Option<Seq<char>>) -> Seq<Seq<char>> {
    let own = filled_only(c.forwarding_servers);
    match resolv {
        Some(text) => if c.use_system_nameservers {
            after_resolv_lines(own, lines(text))
        } else {
            own
        },
        None => own,
    }
}

/// The zone that forwards everything, if there is one: over TLS where that is
/// on and has upstreams, else to the plain forwarders where forwarding is on.
pub open spec fn root_zone(c: ResolverView, resolv: Option<Seq<char>>) -> Seq<Seq<char>> {
    let e = Seq::<Seq<char>>::empty();
    if c.dot_enabled && c.dot_upstream.len() > 0 {
        e.push(
            "forward-zone:\n    name: \".\"\n    forward-tls-upstream: yes\n"@ + concat(
                wrapped("    forward-addr: "@, c.dot_upstream, "\n"@),
            ),
        )
    } else if c.forwarding_enabled && forwarders(c, resolv).len() > 0 {
        e.push(
            "forward-zone:\n    name: \".\"\n    forward-first: yes\n"@ + concat(
                wrapped("    forward-addr: "@, forwarders(c, resolv), "\n"@),
            ),
        )
    } else {
        e
    }
}

/// The zone that forwards one domain.
pub open spec fn domain_zone(d: DomainOverride) -> Seq<char> {
    "forward-zone:\n    name: \""@ + d.domain@ + "\"\n    forward-addr: "@ + d.server@ + "\n"@
}

/// The zones of the enabled domain overrides, in order.
pub open spec fn domain_zones(ds: Seq<DomainOverride>) -> Seq<Seq<char>>
    decreases ds.len(),
{
    if ds.len() == 0 {
        Seq::<Seq<char>>::empty()
    } else if ds.last().enabled {
        domain_zones(ds.drop_last()).push(domain_zone(ds.last()))
    } else {
        domain_zones(ds.drop_last())
    }
}

/// The operator's own lines, indented under a comment.
pub open spec fn custom_block(custom: Seq<char>) -> Seq<char> {
    if custom.len() == 0 {
        Seq::<char>::empty()
    } else {
        "\n    # Custom options\n"@ + join(wrapped("    "@, lines(custom), Seq::empty()), "\n"@)
    }
}

/// The records of hosts and, where leases are registered, of leases.
pub open spec fn local_data(c: ResolverView, hosts: Seq<HostOverride>, leases: Seq<Lease>) -> Seq<Seq<char>> {
    if c.register_dhcp {
        hosts_lines(hosts) + leases_lines(leases)
    } else {
        hosts_lines(hosts)
    }
}

/// The text of `unbound.conf`.
pub open spec fn unbound_conf(
    c: ResolverView,
    acls: Seq<AccessListEntry>,
    hosts: Seq<HostOverride>,
    leases: Seq<Lease>,
    domains: Seq<DomainOverride>,
    resolv: Option<Seq<char>>,
) -> Seq<char> {
    "# AiFw Unbound Configuration — Auto-generated\n# Do not edit manually\n\nserver:\n"@ + join(
        server_lines(c, acls),
        "\n"@,
    ) + "\n"@ + join(local_data(c, hosts, leases), "\n"@) + custom_block(c.custom_options) + "\n"@
        + "\nremote-control:\n    control-enable: yes\n    control-interface: /var/unbound/unbound.ctl\n"@ + "\n"@
        + join(root_zone(c, resolv) + domain_zones(domains), "\n"@) + "\n"@
}

fn push_str(l: &mut Vec<String>, s: &str)
    ensures
        views(final(l)@) == views(old(l)@).push(s@),
{
    push_line(l, s.to_owned());
}

fn push_setting(l: &mut Vec<String>, name: &str, v: &str)
    ensures
        views(final(l)@) == views(old(l)@).push(setting(name@, v@)),
{
    push_line(l, cat2(name, v));
}

fn push_number(l: &mut Vec<String>, name: &str, n: u64)
    ensures
        views(final(l)@) == views(old(l)@).push(setting(name@, dec(n as nat))),
{
    let v = fmt_u64(n);
    push_setting(l, name, v.as_str());
}

fn base(c: &ResolverConfig) -> (l: Vec<String>)
    ensures
        views(l@) == base_lines(c@),
{
    let threads: u32 = if c.num_threads == 0 {
        1
    } else {
        c.num_threads
    };
    let share: u32 = 896 / threads;
    let range: u32 = if share < 64 {
        64
    } else {
        share
    };
    let empty = String::new();
    let interface_lines = wrap_all("    interface: ", &c.listen_interfaces, empty.as_str());
    let mut l: Vec<String> = Vec::new();
    proof {
        assert(empty@ =~= Seq::<char>::empty());
        assert(views(l@) =~= Seq::<Seq<char>>::empty());
    }
    push_str(&mut l, "    username: unbound");
    push_str(&mut l, "    directory: /var/unbound");
    push_str(&mut l, "    chroot: \"\"");
    push_str(&mut l, "    pidfile: /var/run/local_unbound.pid");
    push_str(&mut l, "    auto-trust-anchor-file: /var/unbound/root.key");
    push_number(&mut l, "    port: ", c.port as u64);
    push_str(&mut l, "    do-daemonize: yes");
    push_number(&mut l, "    outgoing-range: ", range as u64);
    push_line(&mut l, join_text(&interface_lines, "\n"));
    push_str(&mut l, "    access-control: 0.0.0.0/0 allow");
    push_str(&mut l, "    access-control: ::0/0 allow");
    push_str(&mut l, "    do-ip4: yes");
    push_str(&mut l, "    do-ip6: yes");
    push_str(&mut l, "    do-udp: yes");
    push_str(&mut l, "    do-tcp: yes");
    push_setting(&mut l, "    hide-identity: ", yes_no_str(c.hide_identity));
    push_setting(&mut l, "    hide-version: ", yes_no_str(c.hide_version));
    push_setting(&mut l, "    prefetch: ", yes_no_str(c.prefetch));
    push_setting(&mut l, "    prefetch-key: ", yes_no_str(c.prefetch_key));
    push_number(&mut l, "    num-threads: ", c.num_threads as u64);
    push_setting(&mut l, "    msg-cache-size: ", c.msg_cache_size.as_str());
    push_setting(&mut l, "    rrset-cache-size: ", c.rrset_cache_size.as_str());
    push_number(&mut l, "    cache-max-ttl: ", c.cache_max_ttl as u64);
    push_number(&mut l, "    cache-min-ttl: ", c.cache_min_ttl as u64);
    push_number(&mut l, "    infra-host-ttl: ", c.infra_host_ttl as u64);
    push_number(&mut l, "    unwanted-reply-threshold: ", c.unwanted_reply_threshold as u64);
    push_number(&mut l, "    verbosity: ", c.log_verbosity as u64);
    l
}

fn push_access_lines(l: &mut Vec<String>, acls: &Vec<AccessListEntry>)
    ensures
        views(final(l)@) == views(old(l)@) + Seq::new(acls@.len(), |i: int| access_line(acls@[i])),
{
    let ghost before = views(l@);
    let mut i: usize = 0;
    while i < acls.len()
        invariant
            i <= acls@.len(),
            views(l@) =~= before + Seq::new(i as nat, |k: int| access_line(acls@[k])),
        decreases acls.len() - i,
    {
        push_line(l, cat4("    access-control: ", acls[i].network.as_str(), " ", acls[i].action.as_str()));
        i = i + 1;
    }
}

fn server(c: &ResolverConfig, acls: &Vec<AccessListEntry>) -> (l: Vec<String>)
    ensures
        views(l@) == server_lines(c@, acls@),
{
    let empty = String::new();
    assert(empty@ =~= Seq::<char>::empty());
    let mut l = base(c);
    if c.dnssec {
        push_str(&mut l, "    auto-trust-anchor-file: /usr/local/etc/unbound/root.key");
    }
    if c.log_queries {
        push_str(&mut l, "    log-queries: yes");
    }
    if c.log_replies {
        push_str(&mut l, "    log-replies: yes");
    }
    if c.rebind_protection {
        append_lines(&mut l, wrap_all("    private-address: ", &c.private_addresses, empty.as_str()));
    }
    match &c.outgoing_interface {
        Some(i) => push_setting(&mut l, "    outgoing-interface: ", i.as_str()),
        None => {},
    }
    push_access_lines(&mut l, acls);
    l
}

/// The fully qualified name of a host override.
pub fn host_fqdn(h: &HostOverride) -> (r: String)
    ensures
        r@ == fqdn(*h),
{
    if h.domain.as_str().is_empty() {
        h.hostname.clone()
    } else {
        cat3(h.hostname.as_str(), ".", h.domain.as_str())
    }
}

fn push_host_lines(l: &mut Vec<String>, h: &HostOverride)
    ensures
        views(final(l)@) == views(old(l)@) + host_lines(*h),
{
    proof {
        reveal_strlit("A");
        reveal_strlit("AAAA");
        reveal_strlit("MX");
        reveal_strlit("CNAME");
        reveal_strlit("TXT");
    }
    let ghost before = views(l@);
    let name = host_fqdn(h);
    let n = name.as_str();
    let v = h.value.as_str();
    let t = h.record_type.as_str();
    if same(t, "A") {
        push_line(l, cat5("    local-data: \"", n, " IN A ", v, "\""));
        let parts = split_text(v, '.');
        assert(views(parts@).len() == parts@.len());
        if parts.len() == 4 {
            push_line(l, cat5("    local-data-ptr: \"", v, " ", n, "\""));
        }
    } else if same(t, "AAAA") {
        push_line(l, cat5("    local-data: \"", n, " IN AAAA ", v, "\""));
    } else if same(t, "MX") {
        let p: u64 = match h.mx_priority {
            Some(p) => p as u64,
            None => 10,
        };
        let ptext = fmt_u64(p);
        let mut line = cat5("    local-data: \"", n, " IN MX ", ptext.as_str(), " ");
        line.append(v);
        line.append("\"");
        push_line(l, line);
    } else if same(t, "CNAME") {
        push_line(l, cat5("    local-data: \"", n, " IN CNAME ", v, "\""));
    } else if same(t, "TXT") {
        push_line(l, cat5("    local-data: '", n, " IN TXT \"", v, "\"'"));
    }
    assert(views(l@) =~= before + host_lines(*h));
}

fn push_hosts_lines(l: &mut Vec<String>, hosts: &Vec<HostOverride>)
    ensures
        views(final(l)@) == views(old(l)@) + hosts_lines(hosts@),
{
    let ghost before = views(l@);
    let mut i: usize = 0;
    assert(before + hosts_lines(hosts@.take(0)) =~= before);
    while i < hosts.len()
        invariant
            i <= hosts@.len(),
            views(l@) == before + hosts_lines(hosts@.take(i as int)),
        decreases hosts.len() - i,
    {
        let ghost mid = hosts_lines(hosts@.take(i as int));
        assert(hosts@.take(i + 1).drop_last() =~= hosts@.take(i as int));
        if hosts[i].enabled {
            push_host_lines(l, &hosts[i]);
            assert((before + mid) + host_lines(hosts@[i as int]) =~= before + (mid + host_lines(hosts@[i as int])));
        }
        i = i + 1;
    }
    assert(hosts@.take(hosts@.len() as int) =~= hosts@);
}

fn push_leases_lines(l: &mut Vec<String>, leases: &Vec<Lease>)
    ensures
        views(final(l)@) == views(old(l)@) + leases_lines(leases@),
{
    let ghost before = views(l@);
    let mut i: usize = 0;
    assert(before + leases_lines(leases@.take(0)) =~= before);
    while i < leases.len()
        invariant
            i <= leases@.len(),
            views(l@) == before + leases_lines(leases@.take(i as int)),
        decreases leases.len() - i,
    {
        let ghost mid = leases_lines(leases@.take(i as int));
        assert(leases@.take(i + 1).drop_last() =~= leases@.take(i as int));
        let ip = leases[i].ip.as_str();
        let name = leases[i].hostname.as_str();
        if !ip.is_empty() && !name.is_empty() {
            push_line(l, cat5("    local-data: \"", name, " IN A ", ip, "\""));
            push_line(l, cat5("    local-data-ptr: \"", ip, " ", name, "\""));
        }
        assert(views(l@) =~= before + (mid + lease_lines(leases@[i as int])));
        i = i + 1;
    }
    assert(leases@.take(leases@.len() as int) =~= leases@);
}

fn add_system_servers(addrs: &mut Vec<String>, resolv: &str)
    ensures
        views(final(addrs)@) == after_resolv_lines(views(old(addrs)@), lines(resolv@)),
{
    let ls = lines_of(resolv);
    let ghost own = views(addrs@);
    let ghost all = views(ls@);
    let mut i: usize = 0;
    assert(all.take(0) =~= Seq::<Seq<char>>::empty());
    while i < ls.len()
        invariant
            i <= ls@.len(),
            all == views(ls@),
            views(addrs@) == after_resolv_lines(own, all.take(i as int)),
        decreases ls.len() - i,
    {
        assert(all.take(i + 1).drop_last() =~= all.take(i as int));
        let t = trimmed(ls[i].as_str());
        match strip_prefix(t.as_str(), "nameserver") {
            Some(rest) => {
                let ns = trimmed(rest.as_str());
                if !same(ns.as_str(), "127.0.0.1") && !same(ns.as_str(), "::1") && !list_contains(addrs, ns.as_str()) {
                    push_line(addrs, ns);
                }
            },
            None => {},
        }
        i = i + 1;
    }
    assert(all.take(ls@.len() as int) =~= all);
}

/// The addresses that plain forwarding goes to.
pub fn forward_addresses(c: &ResolverConfig, resolv: Option<&str>) -> (r: Vec<String>)
    ensures
        views(r@) == forwarders(
            c@,
            match resolv {
                Some(t) => Some(t@),
                None => None,
            },
        ),
{
    let mut addrs = keep_filled(&c.forwarding_servers);
    match resolv {
        Some(text) => {
            if c.use_system_nameservers {
                add_system_servers(&mut addrs, text);
            }
        },
        None => {},
    }
    addrs
}

fn zone_text(head: &str, addrs: &Vec<String>) -> (r: String)
    ensures
        r@ == head@ + concat(wrapped("    forward-addr: "@, views(addrs@), "\n"@)),
{
    let empty = String::new();
    assert(empty@ =~= Seq::<char>::empty());
    let ls = wrap_all("    forward-addr: ", addrs, "\n");
    let body = join_text(&ls, empty.as_str());
    cat2(head, body.as_str())
}

fn zones(c: &ResolverConfig, domains: &Vec<DomainOverride>, resolv: Option<&str>) -> (r: Vec<String>)
    ensures
        views(r@) == root_zone(
            c@,
            match resolv {
                Some(t) => Some(t@),
                None => None,
            },
        ) + domain_zones(domains@),
{
    let mut r: Vec<String> = Vec::new();
    assert(views(r@) =~= Seq::<Seq<char>>::empty());
    assert(views(c.dot_upstream@).len() == c.dot_upstream@.len());
    if c.dot_enabled && c.dot_upstream.len() > 0 {
        push_line(
            &mut r,
            zone_text("forward-zone:\n    name: \".\"\n    forward-tls-upstream: yes\n", &c.dot_upstream),
        );
    } else if c.forwarding_enabled {
        let addrs = forward_addresses(c, resolv);
        assert(views(addrs@).len() == addrs@.len());
        if addrs.len() > 0 {
            push_line(&mut r, zone_text("forward-zone:\n    name: \".\"\n    forward-first: yes\n", &addrs));
        }
    }
    let ghost root = views(r@);
    let mut i: usize = 0;
    assert(root + domain_zones(domains@.take(0)) =~= root);
    while i < domains.len()
        invariant
            i <= domains@.len(),
            views(r@) == root + domain_zones(domains@.take(i as int)),
        decreases domains.len() - i,
    {
        let ghost mid = domain_zones(domains@.take(i as int));
        assert(domains@.take(i + 1).drop_last() =~= domains@.take(i as int));
        if domains[i].enabled {
            push_line(
                &mut r,
                cat5(
                    "forward-zone:\n    name: \"",
                    domains[i].domain.as_str(),
                    "\"\n    forward-addr: ",
                    domains[i].server.as_str(),
                    "\n",
                ),
            );
            assert(views(r@) =~= root + mid.push(domain_zone(domains@[i as int])));
        }
        i = i + 1;
    }
    assert(domains@.take(domains@.len() as int) =~= domains@);
    r
}

fn custom_text(custom: &str) -> (r: String)
    ensures
        r@ == custom_block(custom@),
{
    let empty = String::new();
    assert(empty@ =~= Seq::<char>::empty());
    if custom.is_empty() {
        empty
    } else {
        let ls = lines_of(custom);
        let indented = wrap_all("    ", &ls, empty.as_str());
        let body = join_text(&indented, "\n");
        cat2("\n    # Custom options\n", body.as_str())
    }
}

/// Generates `unbound.conf` from the settings, the operators' records, the
/// leases the DHCP server reports and the text of `/etc/resolv.conf`, where it
/// could be read.
pub fn generate_unbound_conf(
    c: &ResolverConfig,
    acls: &Vec<AccessListEntry>,
    hosts: &Vec<HostOverride>,
    leases: &Vec<Lease>,
    domains: &Vec<DomainOverride>,
    resolv: Option<&str>,
) -> (r: String)
    ensures
        r@ == unbound_conf(
            c@,
            acls@,
            hosts@,
            leases@,
            domains@,
            match resolv {
                Some(t) => Some(t@),
                None => None,
            },
        ),
{
    let server_text = join_text(&server(c, acls), "\n");
    let mut data: Vec<String> = Vec::new();
    assert(views(data@) + hosts_lines(hosts@) =~= hosts_lines(hosts@));
    push_hosts_lines(&mut data, hosts);
    if c.register_dhcp {
        push_leases_lines(&mut data, leases);
    }
    let data_text = join_text(&data, "\n");
    let custom = custom_text(c.custom_options.as_str());
    let zone_list = join_text(&zones(c, domains, resolv), "\n");
    let mut r = cat5(
        "# AiFw Unbound Configuration — Auto-generated\n# Do not edit manually\n\nserver:\n",
        server_text.as_str(),
        "\n",
        data_text.as_str(),
        custom.as_str(),
    );
    r.append("\n");
    r.append("\nremote-control:\n    control-enable: yes\n    control-interface: /var/unbound/unbound.ctl\n");
    r.append("\n");
    r.append(zone_list.as_str());
    r.append("\n");
    r
}

} // verus!
