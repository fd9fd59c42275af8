//! What stands in the files of rdns.

use vstd::prelude::*;
use vstd::string::*;

use crate::dns_resolver::config::ResolverView;
use crate::dns_resolver::dns64::dns64_prefix_ok;
use crate::dns_resolver::rdns::{
    all_block_lines, all_ptrs, any_host, block_line, block_lines, blocked_domain, blocklist_rpz, dns64_lines, downloads,
    enabled_domains, forward_block, forward_zone, forward_zones, forwarders_line, host_ptrs, host_rewrite,
    host_rewrites, hosts_rpz, lease_domain, lease_host, lease_ptrs, lease_records, lease_zone, listeners, pass_lines,
    policy_lines, ptr_record, rdns_conf, reverse_file, reverse_zone, reverse_zones, rooted, server_address,
    timeout_line, zone_files, zone_records,
};
use crate::dns_resolver::records::{DomainOverride, HostOverride, Lease};
use crate::dns_resolver::unbound::fqdn;
use crate::kv::{bool_text, trimmed_pieces};
use crate::lists::{join_around, joined_before, joined_behind, push_holds, text_is_within, within_is_transitive};
use crate::net::is_ipv6;
use crate::number::dec;
use crate::text::{
    has_prefix, has_suffix, has_text, join, lines, padded, split, split_of_join, split_pieces, trim, trim_end_of, words,
    wrapped,
};

verus! {

/// What stands within a text stands there still when more is written behind it.
proof fn still_within(s: Seq<char>, b: Seq<char>, p: Seq<char>)
    requires
        has_text(s, p),
    ensures
        has_text(s + b, p),
{
    let e = Seq::<char>::empty();
    crate::lists::part_is_within(e, s, b, p);
    assert(e + s + b =~= s + b);
}

proof fn ends_with_1(w: Seq<char>, a: Seq<char>)
    ensures
        has_text(w + a, a),
{
    let n = Seq::<char>::empty();
    let part = a;
    let whole = w + a;
    assert(w + part + n =~= whole);
    text_is_within(w, part, n);
}

proof fn ends_with_2(w: Seq<char>, a: Seq<char>, b: Seq<char>)
    ensures
        has_text(w + a + b, a + b),
{
    let n = Seq::<char>::empty();
    let part = a + b;
    let whole = w + a + b;
    assert(w + part + n =~= whole);
    text_is_within(w, part, n);
}

proof fn ends_with_3(w: Seq<char>, a: Seq<char>, b: Seq<char>, c: Seq<char>)
    ensures
        has_text(w + a + b + c, a + b + c),
{
    let n = Seq::<char>::empty();
    let part = a + b + c;
    let whole = w + a + b + c;
    assert(w + part + n =~= whole);
    text_is_within(w, part, n);
}

proof fn ends_with_5(w: Seq<char>, a: Seq<char>, b: Seq<char>, c: Seq<char>, d: Seq<char>, e: Seq<char>)
    ensures
        has_text(w + a + b + c + d + e, a + b + c + d + e),
{
    let n = Seq::<char>::empty();
    let part = a + b + c + d + e;
    let whole = w + a + b + c + d + e;
    assert(w + part + n =~= whole);
    text_is_within(w, part, n);
}

// ---------------------------------------------------------------------------
// rdns.toml
// ---------------------------------------------------------------------------

/// The server answers for zones of its own where a host is switched on or leases
/// are registered, and only resolves else.
pub proof fn server_runs_in_its_mode(c: ResolverView, hosts: Seq<HostOverride>, domains: Seq<DomainOverride>)
    ensures
        (exists|i: int| 0 <= i < hosts.len() && (#[trigger] hosts[i]).enabled) || c.register_dhcp ==> has_text(
            rdns_conf(c, hosts, domains),
            "[server]\nmode = \""@ + "both"@ + "\"\nuser = \"rdns\"\ngroup = \"rdns\"\npidfile = \"/dev/null\"\n\n"@,
        ),
        !(exists|i: int| 0 <= i < hosts.len() && (#[trigger] hosts[i]).enabled) && !c.register_dhcp ==> has_text(
            rdns_conf(c, hosts, domains),
            "[server]\nmode = \""@ + "resolver"@
                + "\"\nuser = \"rdns\"\ngroup = \"rdns\"\npidfile = \"/dev/null\"\n\n"@,
        ),
{
    let need_auth = any_host(hosts) || c.register_dhcp;
    let mode = if need_auth {
        "both"@
    } else {
        "resolver"@
    };
    let authoritative = if need_auth {
        "[authoritative]\nsource = \"zone-files\"\ndirectory = \"/usr/local/etc/rdns/zones\"\n\n"@
    } else {
        "[authoritative]\nsource = \"none\"\n\n"@
    };
    let level = if c.log_verbosity >= 2 {
        "debug"@
    } else {
        "info"@
    };
    let w0 = "# AiFw rDNS Configuration — Auto-generated\n\n"@;
    let w1 = w0 + "[server]\nmode = \""@;
    let w2 = w1 + mode;
    let w3 = w2 + "\"\nuser = \"rdns\"\ngroup = \"rdns\"\npidfile = \"/dev/null\"\n\n"@;
    let w4 = w3 + "[listeners]\nudp = ["@;
    let w5 = w4 + listeners(c);
    let w6 = w5 + "]\ntcp = ["@;
    let w7 = w6 + listeners(c);
    let w8 = w7 + "]\n\n"@;
    let w9 = w8 + "[cache]\nmax_entries = 1000000\nmax_ttl = "@;
    let w10 = w9 + dec(c.cache_max_ttl as nat);
    let w11 = w10 + "\nmin_ttl = "@;
    let w12 = w11 + dec(c.cache_min_ttl as nat);
    let w13 = w12 + "\nnegative_ttl = 300\n\n"@;
    let w14 = w13 + "[resolver]\n"@;
    let w15 = w14 + forwarders_line(c);
    let w16 = w15 + "dnssec = "@;
    let w17 = w16 + bool_text(c.dnssec);
    let w18 = w17 + "\nqname_minimization = true\n"@;
    let w19 = w18 + dns64_lines(c);
    let w20 = w19 + timeout_line(c);
    let w21 = w20 + forward_block(domains);
    let w22 = w21 + "\n"@;
    let w23 = w22 + authoritative;
    let w24 = w23 + "[control]\nsocket = \"/var/run/rdns/control.sock\"\n\n"@;
    let w25 = w24 + "[metrics]\nenabled = true\naddress = \"127.0.0.1:9153\"\n\n"@;
    let w26 = w25 + "[logging]\nlevel = \""@;
    let w27 = w26 + level;
    let w28 = w27 + "\"\nformat = \"text\"\nquery_log = "@;
    let w29 = w28 + bool_text(c.log_queries);
    let w30 = w29 + "\n\n"@;
    let w31 = w30 + "[security]\nsandbox = false\nrate_limit = 1000\n\n"@;
    let w32 = w31 + policy_lines(c, hosts);
    let part = "[server]\nmode = \""@ + mode + "\"\nuser = \"rdns\"\ngroup = \"rdns\"\npidfile = \"/dev/null\"\n\n"@;
    ends_with_3(w0, "[server]\nmode = \""@, mode,
        "\"\nuser = \"rdns\"\ngroup = \"rdns\"\npidfile = \"/dev/null\"\n\n"@);
    still_within(w3, "[listeners]\nudp = ["@, part);
    still_within(w4, listeners(c), part);
    still_within(w5, "]\ntcp = ["@, part);
    still_within(w6, listeners(c), part);
    still_within(w7, "]\n\n"@, part);
    still_within(w8, "[cache]\nmax_entries = 1000000\nmax_ttl = "@, part);
    still_within(w9, dec(c.cache_max_ttl as nat), part);
    still_within(w10, "\nmin_ttl = "@, part);
    still_within(w11, dec(c.cache_min_ttl as nat), part);
    still_within(w12, "\nnegative_ttl = 300\n\n"@, part);
    still_within(w13, "[resolver]\n"@, part);
    still_within(w14, forwarders_line(c), part);
    still_within(w15, "dnssec = "@, part);
    still_within(w16, bool_text(c.dnssec), part);
    still_within(w17, "\nqname_minimization = true\n"@, part);
    still_within(w18, dns64_lines(c), part);
    still_within(w19, timeout_line(c), part);
    still_within(w20, forward_block(domains), part);
    still_within(w21, "\n"@, part);
    still_within(w22, authoritative, part);
    still_within(w23, "[control]\nsocket = \"/var/run/rdns/control.sock\"\n\n"@, part);
    still_within(w24, "[metrics]\nenabled = true\naddress = \"127.0.0.1:9153\"\n\n"@, part);
    still_within(w25, "[logging]\nlevel = \""@, part);
    still_within(w26, level, part);
    still_within(w27, "\"\nformat = \"text\"\nquery_log = "@, part);
    still_within(w28, bool_text(c.log_queries), part);
    still_within(w29, "\n\n"@, part);
    still_within(w30, "[security]\nsandbox = false\nrate_limit = 1000\n\n"@, part);
    still_within(w31, policy_lines(c, hosts), part);
    assert(w32 == rdns_conf(c, hosts, domains));
}

/// The zone files are read in that mode, and none else.
pub proof fn zones_are_read_where_there_are_any(c: ResolverView, hosts: Seq<HostOverride>, domains: Seq<DomainOverride>)
    ensures
        (exists|i: int| 0 <= i < hosts.len() && (#[trigger] hosts[i]).enabled) || c.register_dhcp ==> has_text(
            rdns_conf(c, hosts, domains),
            "[authoritative]\nsource = \"zone-files\"\ndirectory = \"/usr/local/etc/rdns/zones\"\n\n"@,
        ),
        !(exists|i: int| 0 <= i < hosts.len() && (#[trigger] hosts[i]).enabled) && !c.register_dhcp ==> has_text(
            rdns_conf(c, hosts, domains),
            "[authoritative]\nsource = \"none\"\n\n"@,
        ),
{
    let need_auth = any_host(hosts) || c.register_dhcp;
    let mode = if need_auth {
        "both"@
    } else {
        "resolver"@
    };
    let authoritative = if need_auth {
        "[authoritative]\nsource = \"zone-files\"\ndirectory = \"/usr/local/etc/rdns/zones\"\n\n"@
    } else {
        "[authoritative]\nsource = \"none\"\n\n"@
    };
    let level = if c.log_verbosity >= 2 {
        "debug"@
    } else {
        "info"@
    };
    let w0 = "# AiFw rDNS Configuration — Auto-generated\n\n"@;
    let w1 = w0 + "[server]\nmode = \""@;
    let w2 = w1 + mode;
    let w3 = w2 + "\"\nuser = \"rdns\"\ngroup = \"rdns\"\npidfile = \"/dev/null\"\n\n"@;
    let w4 = w3 + "[listeners]\nudp = ["@;
    let w5 = w4 + listeners(c);
    let w6 = w5 + "]\ntcp = ["@;
    let w7 = w6 + listeners(c);
    let w8 = w7 + "]\n\n"@;
    let w9 = w8 + "[cache]\nmax_entries = 1000000\nmax_ttl = "@;
    let w10 = w9 + dec(c.cache_max_ttl as nat);
    let w11 = w10 + "\nmin_ttl = "@;
    let w12 = w11 + dec(c.cache_min_ttl as nat);
    let w13 = w12 + "\nnegative_ttl = 300\n\n"@;
    let w14 = w13 + "[resolver]\n"@;
    let w15 = w14 + forwarders_line(c);
    let w16 = w15 + "dnssec = "@;
    let w17 = w16 + bool_text(c.dnssec);
    let w18 = w17 + "\nqname_minimization = true\n"@;
    let w19 = w18 + dns64_lines(c);
    let w20 = w19 + timeout_line(c);
    let w21 = w20 + forward_block(domains);
    let w22 = w21 + "\n"@;
    let w23 = w22 + authoritative;
    let w24 = w23 + "[control]\nsocket = \"/var/run/rdns/control.sock\"\n\n"@;
    let w25 = w24 + "[metrics]\nenabled = true\naddress = \"127.0.0.1:9153\"\n\n"@;
    let w26 = w25 + "[logging]\nlevel = \""@;
    let w27 = w26 + level;
    let w28 = w27 + "\"\nformat = \"text\"\nquery_log = "@;
    let w29 = w28 + bool_text(c.log_queries);
    let w30 = w29 + "\n\n"@;
    let w31 = w30 + "[security]\nsandbox = false\nrate_limit = 1000\n\n"@;
    let w32 = w31 + policy_lines(c, hosts);
    let part = authoritative;
    ends_with_1(w22, authoritative);
    still_within(w23, "[control]\nsocket = \"/var/run/rdns/control.sock\"\n\n"@, part);
    still_within(w24, "[metrics]\nenabled = true\naddress = \"127.0.0.1:9153\"\n\n"@, part);
    still_within(w25, "[logging]\nlevel = \""@, part);
    still_within(w26, level, part);
    still_within(w27, "\"\nformat = \"text\"\nquery_log = "@, part);
    still_within(w28, bool_text(c.log_queries), part);
    still_within(w29, "\n\n"@, part);
    still_within(w30, "[security]\nsandbox = false\nrate_limit = 1000\n\n"@, part);
    still_within(w31, policy_lines(c, hosts), part);
    assert(w32 == rdns_conf(c, hosts, domains));
}

/// The server listens on the same addresses over UDP and over TCP.
pub proof fn server_listens(c: ResolverView, hosts: Seq<HostOverride>, domains: Seq<DomainOverride>)
    ensures
        has_text(rdns_conf(c, hosts, domains),
            "[listeners]\nudp = ["@ + listeners(c) + "]\ntcp = ["@ + listeners(c) + "]\n\n"@),
{
    let need_auth = any_host(hosts) || c.register_dhcp;
    let mode = if need_auth {
        "both"@
    } else {
        "resolver"@
    };
    let authoritative = if need_auth {
        "[authoritative]\nsource = \"zone-files\"\ndirectory = \"/usr/local/etc/rdns/zones\"\n\n"@
    } else {
        "[authoritative]\nsource = \"none\"\n\n"@
    };
    let level = if c.log_verbosity >= 2 {
        "debug"@
    } else {
        "info"@
    };
    let w0 = "# AiFw rDNS Configuration — Auto-generated\n\n"@;
    let w1 = w0 + "[server]\nmode = \""@;
    let w2 = w1 + mode;
    let w3 = w2 + "\"\nuser = \"rdns\"\ngroup = \"rdns\"\npidfile = \"/dev/null\"\n\n"@;
    let w4 = w3 + "[listeners]\nudp = ["@;
    let w5 = w4 + listeners(c);
    let w6 = w5 + "]\ntcp = ["@;
    let w7 = w6 + listeners(c);
    let w8 = w7 + "]\n\n"@;
    let w9 = w8 + "[cache]\nmax_entries = 1000000\nmax_ttl = "@;
    let w10 = w9 + dec(c.cache_max_ttl as nat);
    let w11 = w10 + "\nmin_ttl = "@;
    let w12 = w11 + dec(c.cache_min_ttl as nat);
    let w13 = w12 + "\nnegative_ttl = 300\n\n"@;
    let w14 = w13 + "[resolver]\n"@;
    let w15 = w14 + forwarders_line(c);
    let w16 = w15 + "dnssec = "@;
    let w17 = w16 + bool_text(c.dnssec);
    let w18 = w17 + "\nqname_minimization = true\n"@;
    let w19 = w18 + dns64_lines(c);
    let w20 = w19 + timeout_line(c);
    let w21 = w20 + forward_block(domains);
    let w22 = w21 + "\n"@;
    let w23 = w22 + authoritative;
    let w24 = w23 + "[control]\nsocket = \"/var/run/rdns/control.sock\"\n\n"@;
    let w25 = w24 + "[metrics]\nenabled = true\naddress = \"127.0.0.1:9153\"\n\n"@;
    let w26 = w25 + "[logging]\nlevel = \""@;
    let w27 = w26 + level;
    let w28 = w27 + "\"\nformat = \"text\"\nquery_log = "@;
    let w29 = w28 + bool_text(c.log_queries);
    let w30 = w29 + "\n\n"@;
    let w31 = w30 + "[security]\nsandbox = false\nrate_limit = 1000\n\n"@;
    let w32 = w31 + policy_lines(c, hosts);
    let part = "[listeners]\nudp = ["@ + listeners(c) + "]\ntcp = ["@ + listeners(c) + "]\n\n"@;
    ends_with_5(w3, "[listeners]\nudp = ["@, listeners(c), "]\ntcp = ["@, listeners(c), "]\n\n"@);
    still_within(w8, "[cache]\nmax_entries = 1000000\nmax_ttl = "@, part);
    still_within(w9, dec(c.cache_max_ttl as nat), part);
    still_within(w10, "\nmin_ttl = "@, part);
    still_within(w11, dec(c.cache_min_ttl as nat), part);
    still_within(w12, "\nnegative_ttl = 300\n\n"@, part);
    still_within(w13, "[resolver]\n"@, part);
    still_within(w14, forwarders_line(c), part);
    still_within(w15, "dnssec = "@, part);
    still_within(w16, bool_text(c.dnssec), part);
    still_within(w17, "\nqname_minimization = true\n"@, part);
    still_within(w18, dns64_lines(c), part);
    still_within(w19, timeout_line(c), part);
    still_within(w20, forward_block(domains), part);
    still_within(w21, "\n"@, part);
    still_within(w22, authoritative, part);
    still_within(w23, "[control]\nsocket = \"/var/run/rdns/control.sock\"\n\n"@, part);
    still_within(w24, "[metrics]\nenabled = true\naddress = \"127.0.0.1:9153\"\n\n"@, part);
    still_within(w25, "[logging]\nlevel = \""@, part);
    still_within(w26, level, part);
    still_within(w27, "\"\nformat = \"text\"\nquery_log = "@, part);
    still_within(w28, bool_text(c.log_queries), part);
    still_within(w29, "\n\n"@, part);
    still_within(w30, "[security]\nsandbox = false\nrate_limit = 1000\n\n"@, part);
    still_within(w31, policy_lines(c, hosts), part);
    assert(w32 == rdns_conf(c, hosts, domains));
}

/// Answers are kept for as long as the settings say.
pub proof fn answers_are_kept_as_long_as_wanted(c: ResolverView, hosts: Seq<HostOverride>, domains: Seq<DomainOverride>)
    ensures
        has_text(
            rdns_conf(c, hosts, domains),
            "[cache]\nmax_entries = 1000000\nmax_ttl = "@ + dec(c.cache_max_ttl as nat) + "\nmin_ttl = "@
                + dec(c.cache_min_ttl as nat)
                + "\nnegative_ttl = 300\n\n"@,
        ),
{
    let need_auth = any_host(hosts) || c.register_dhcp;
    let mode = if need_auth {
        "both"@
    } else {
        "resolver"@
    };
    let authoritative = if need_auth {
        "[authoritative]\nsource = \"zone-files\"\ndirectory = \"/usr/local/etc/rdns/zones\"\n\n"@
    } else {
        "[authoritative]\nsource = \"none\"\n\n"@
    };
    let level = if c.log_verbosity >= 2 {
        "debug"@
    } else {
        "info"@
    };
    let w0 = "# AiFw rDNS Configuration — Auto-generated\n\n"@;
    let w1 = w0 + "[server]\nmode = \""@;
    let w2 = w1 + mode;
    let w3 = w2 + "\"\nuser = \"rdns\"\ngroup = \"rdns\"\npidfile = \"/dev/null\"\n\n"@;
    let w4 = w3 + "[listeners]\nudp = ["@;
    let w5 = w4 + listeners(c);
    let w6 = w5 + "]\ntcp = ["@;
    let w7 = w6 + listeners(c);
    let w8 = w7 + "]\n\n"@;
    let w9 = w8 + "[cache]\nmax_entries = 1000000\nmax_ttl = "@;
    let w10 = w9 + dec(c.cache_max_ttl as nat);
    let w11 = w10 + "\nmin_ttl = "@;
    let w12 = w11 + dec(c.cache_min_ttl as nat);
    let w13 = w12 + "\nnegative_ttl = 300\n\n"@;
    let w14 = w13 + "[resolver]\n"@;
    let w15 = w14 + forwarders_line(c);
    let w16 = w15 + "dnssec = "@;
    let w17 = w16 + bool_text(c.dnssec);
    let w18 = w17 + "\nqname_minimization = true\n"@;
    let w19 = w18 + dns64_lines(c);
    let w20 = w19 + timeout_line(c);
    let w21 = w20 + forward_block(domains);
    let w22 = w21 + "\n"@;
    let w23 = w22 + authoritative;
    let w24 = w23 + "[control]\nsocket = \"/var/run/rdns/control.sock\"\n\n"@;
    let w25 = w24 + "[metrics]\nenabled = true\naddress = \"127.0.0.1:9153\"\n\n"@;
    let w26 = w25 + "[logging]\nlevel = \""@;
    let w27 = w26 + level;
    let w28 = w27 + "\"\nformat = \"text\"\nquery_log = "@;
    let w29 = w28 + bool_text(c.log_queries);
    let w30 = w29 + "\n\n"@;
    let w31 = w30 + "[security]\nsandbox = false\nrate_limit = 1000\n\n"@;
    let w32 = w31 + policy_lines(c, hosts);
    let part = "[cache]\nmax_entries = 1000000\nmax_ttl = "@ + dec(c.cache_max_ttl as nat) + "\nmin_ttl = "@
        + dec(c.cache_min_ttl as nat) + "\nnegative_ttl = 300\n\n"@;
    ends_with_5(w8, "[cache]\nmax_entries = 1000000\nmax_ttl = "@, dec(c.cache_max_ttl as nat), "\nmin_ttl = "@,
        dec(c.cache_min_ttl as nat), "\nnegative_ttl = 300\n\n"@);
    still_within(w13, "[resolver]\n"@, part);
    still_within(w14, forwarders_line(c), part);
    still_within(w15, "dnssec = "@, part);
    still_within(w16, bool_text(c.dnssec), part);
    still_within(w17, "\nqname_minimization = true\n"@, part);
    still_within(w18, dns64_lines(c), part);
    still_within(w19, timeout_line(c), part);
    still_within(w20, forward_block(domains), part);
    still_within(w21, "\n"@, part);
    still_within(w22, authoritative, part);
    still_within(w23, "[control]\nsocket = \"/var/run/rdns/control.sock\"\n\n"@, part);
    still_within(w24, "[metrics]\nenabled = true\naddress = \"127.0.0.1:9153\"\n\n"@, part);
    still_within(w25, "[logging]\nlevel = \""@, part);
    still_within(w26, level, part);
    still_within(w27, "\"\nformat = \"text\"\nquery_log = "@, part);
    still_within(w28, bool_text(c.log_queries), part);
    still_within(w29, "\n\n"@, part);
    still_within(w30, "[security]\nsandbox = false\nrate_limit = 1000\n\n"@, part);
    still_within(w31, policy_lines(c, hosts), part);
    assert(w32 == rdns_conf(c, hosts, domains));
}

/// Queries go to the servers of the settings where forwarding is on and there are
/// any, and to nobody else.
pub proof fn queries_are_forwarded(c: ResolverView, hosts: Seq<HostOverride>, domains: Seq<DomainOverride>)
    ensures
        has_text(rdns_conf(c, hosts, domains), "[resolver]\n"@ + forwarders_line(c)),
        !c.forwarding_enabled || c.forwarding_servers.len() == 0 ==> forwarders_line(c) == "forwarders = []\n"@,
        c.forwarding_enabled && c.forwarding_servers.len() > 0 ==> forwarders_line(c) == "forwarders = ["@ + join(
            wrapped("\""@, c.forwarding_servers, "\""@),
            ", "@,
        ) + "]\n"@,
{
    let need_auth = any_host(hosts) || c.register_dhcp;
    let mode = if need_auth {
        "both"@
    } else {
        "resolver"@
    };
    let authoritative = if need_auth {
        "[authoritative]\nsource = \"zone-files\"\ndirectory = \"/usr/local/etc/rdns/zones\"\n\n"@
    } else {
        "[authoritative]\nsource = \"none\"\n\n"@
    };
    let level = if c.log_verbosity >= 2 {
        "debug"@
    } else {
        "info"@
    };
    let w0 = "# AiFw rDNS Configuration — Auto-generated\n\n"@;
    let w1 = w0 + "[server]\nmode = \""@;
    let w2 = w1 + mode;
    let w3 = w2 + "\"\nuser = \"rdns\"\ngroup = \"rdns\"\npidfile = \"/dev/null\"\n\n"@;
    let w4 = w3 + "[listeners]\nudp = ["@;
    let w5 = w4 + listeners(c);
    let w6 = w5 + "]\ntcp = ["@;
    let w7 = w6 + listeners(c);
    let w8 = w7 + "]\n\n"@;
    let w9 = w8 + "[cache]\nmax_entries = 1000000\nmax_ttl = "@;
    let w10 = w9 + dec(c.cache_max_ttl as nat);
    let w11 = w10 + "\nmin_ttl = "@;
    let w12 = w11 + dec(c.cache_min_ttl as nat);
    let w13 = w12 + "\nnegative_ttl = 300\n\n"@;
    let w14 = w13 + "[resolver]\n"@;
    let w15 = w14 + forwarders_line(c);
    let w16 = w15 + "dnssec = "@;
    let w17 = w16 + bool_text(c.dnssec);
    let w18 = w17 + "\nqname_minimization = true\n"@;
    let w19 = w18 + dns64_lines(c);
    let w20 = w19 + timeout_line(c);
    let w21 = w20 + forward_block(domains);
    let w22 = w21 + "\n"@;
    let w23 = w22 + authoritative;
    let w24 = w23 + "[control]\nsocket = \"/var/run/rdns/control.sock\"\n\n"@;
    let w25 = w24 + "[metrics]\nenabled = true\naddress = \"127.0.0.1:9153\"\n\n"@;
    let w26 = w25 + "[logging]\nlevel = \""@;
    let w27 = w26 + level;
    let w28 = w27 + "\"\nformat = \"text\"\nquery_log = "@;
    let w29 = w28 + bool_text(c.log_queries);
    let w30 = w29 + "\n\n"@;
    let w31 = w30 + "[security]\nsandbox = false\nrate_limit = 1000\n\n"@;
    let w32 = w31 + policy_lines(c, hosts);
    let part = "[resolver]\n"@ + forwarders_line(c);
    ends_with_2(w13, "[resolver]\n"@, forwarders_line(c));
    still_within(w15, "dnssec = "@, part);
    still_within(w16, bool_text(c.dnssec), part);
    still_within(w17, "\nqname_minimization = true\n"@, part);
    still_within(w18, dns64_lines(c), part);
    still_within(w19, timeout_line(c), part);
    still_within(w20, forward_block(domains), part);
    still_within(w21, "\n"@, part);
    still_within(w22, authoritative, part);
    still_within(w23, "[control]\nsocket = \"/var/run/rdns/control.sock\"\n\n"@, part);
    still_within(w24, "[metrics]\nenabled = true\naddress = \"127.0.0.1:9153\"\n\n"@, part);
    still_within(w25, "[logging]\nlevel = \""@, part);
    still_within(w26, level, part);
    still_within(w27, "\"\nformat = \"text\"\nquery_log = "@, part);
    still_within(w28, bool_text(c.log_queries), part);
    still_within(w29, "\n\n"@, part);
    still_within(w30, "[security]\nsandbox = false\nrate_limit = 1000\n\n"@, part);
    still_within(w31, policy_lines(c, hosts), part);
    assert(w32 == rdns_conf(c, hosts, domains));
}

/// Signatures are checked where the settings say so.
pub proof fn signatures_are_checked(c: ResolverView, hosts: Seq<HostOverride>, domains: Seq<DomainOverride>)
    ensures
        c.dnssec ==> has_text(rdns_conf(c, hosts, domains), "dnssec = "@ + "true"@ + "\nqname_minimization = true\n"@),
        !c.dnssec ==> has_text(rdns_conf(c, hosts, domains),
            "dnssec = "@ + "false"@ + "\nqname_minimization = true\n"@),
{
    let need_auth = any_host(hosts) || c.register_dhcp;
    let mode = if need_auth {
        "both"@
    } else {
        "resolver"@
    };
    let authoritative = if need_auth {
        "[authoritative]\nsource = \"zone-files\"\ndirectory = \"/usr/local/etc/rdns/zones\"\n\n"@
    } else {
        "[authoritative]\nsource = \"none\"\n\n"@
    };
    let level = if c.log_verbosity >= 2 {
        "debug"@
    } else {
        "info"@
    };
    let w0 = "# AiFw rDNS Configuration — Auto-generated\n\n"@;
    let w1 = w0 + "[server]\nmode = \""@;
    let w2 = w1 + mode;
    let w3 = w2 + "\"\nuser = \"rdns\"\ngroup = \"rdns\"\npidfile = \"/dev/null\"\n\n"@;
    let w4 = w3 + "[listeners]\nudp = ["@;
    let w5 = w4 + listeners(c);
    let w6 = w5 + "]\ntcp = ["@;
    let w7 = w6 + listeners(c);
    let w8 = w7 + "]\n\n"@;
    let w9 = w8 + "[cache]\nmax_entries = 1000000\nmax_ttl = "@;
    let w10 = w9 + dec(c.cache_max_ttl as nat);
    let w11 = w10 + "\nmin_ttl = "@;
    let w12 = w11 + dec(c.cache_min_ttl as nat);
    let w13 = w12 + "\nnegative_ttl = 300\n\n"@;
    let w14 = w13 + "[resolver]\n"@;
    let w15 = w14 + forwarders_line(c);
    let w16 = w15 + "dnssec = "@;
    let w17 = w16 + bool_text(c.dnssec);
    let w18 = w17 + "\nqname_minimization = true\n"@;
    let w19 = w18 + dns64_lines(c);
    let w20 = w19 + timeout_line(c);
    let w21 = w20 + forward_block(domains);
    let w22 = w21 + "\n"@;
    let w23 = w22 + authoritative;
    let w24 = w23 + "[control]\nsocket = \"/var/run/rdns/control.sock\"\n\n"@;
    let w25 = w24 + "[metrics]\nenabled = true\naddress = \"127.0.0.1:9153\"\n\n"@;
    let w26 = w25 + "[logging]\nlevel = \""@;
    let w27 = w26 + level;
    let w28 = w27 + "\"\nformat = \"text\"\nquery_log = "@;
    let w29 = w28 + bool_text(c.log_queries);
    let w30 = w29 + "\n\n"@;
    let w31 = w30 + "[security]\nsandbox = false\nrate_limit = 1000\n\n"@;
    let w32 = w31 + policy_lines(c, hosts);
    let part = "dnssec = "@ + bool_text(c.dnssec) + "\nqname_minimization = true\n"@;
    ends_with_3(w15, "dnssec = "@, bool_text(c.dnssec), "\nqname_minimization = true\n"@);
    still_within(w18, dns64_lines(c), part);
    still_within(w19, timeout_line(c), part);
    still_within(w20, forward_block(domains), part);
    still_within(w21, "\n"@, part);
    still_within(w22, authoritative, part);
    still_within(w23, "[control]\nsocket = \"/var/run/rdns/control.sock\"\n\n"@, part);
    still_within(w24, "[metrics]\nenabled = true\naddress = \"127.0.0.1:9153\"\n\n"@, part);
    still_within(w25, "[logging]\nlevel = \""@, part);
    still_within(w26, level, part);
    still_within(w27, "\"\nformat = \"text\"\nquery_log = "@, part);
    still_within(w28, bool_text(c.log_queries), part);
    still_within(w29, "\n\n"@, part);
    still_within(w30, "[security]\nsandbox = false\nrate_limit = 1000\n\n"@, part);
    still_within(w31, policy_lines(c, hosts), part);
    assert(w32 == rdns_conf(c, hosts, domains));
}

/// Addresses are synthesised with the prefix of the settings, where that is one.
pub proof fn addresses_are_synthesised(c: ResolverView, hosts: Seq<HostOverride>, domains: Seq<DomainOverride>)
    ensures
        c.dns64 && dns64_prefix_ok(c.dns64_prefix)
            ==> has_text(rdns_conf(c, hosts, domains), "dns64 = true\ndns64_prefix = \""@ + c.dns64_prefix + "\"\n"@),
        !c.dns64 || !dns64_prefix_ok(c.dns64_prefix) ==> dns64_lines(c) == Seq::<char>::empty(),
{
    let need_auth = any_host(hosts) || c.register_dhcp;
    let mode = if need_auth {
        "both"@
    } else {
        "resolver"@
    };
    let authoritative = if need_auth {
        "[authoritative]\nsource = \"zone-files\"\ndirectory = \"/usr/local/etc/rdns/zones\"\n\n"@
    } else {
        "[authoritative]\nsource = \"none\"\n\n"@
    };
    let level = if c.log_verbosity >= 2 {
        "debug"@
    } else {
        "info"@
    };
    let w0 = "# AiFw rDNS Configuration — Auto-generated\n\n"@;
    let w1 = w0 + "[server]\nmode = \""@;
    let w2 = w1 + mode;
    let w3 = w2 + "\"\nuser = \"rdns\"\ngroup = \"rdns\"\npidfile = \"/dev/null\"\n\n"@;
    let w4 = w3 + "[listeners]\nudp = ["@;
    let w5 = w4 + listeners(c);
    let w6 = w5 + "]\ntcp = ["@;
    let w7 = w6 + listeners(c);
    let w8 = w7 + "]\n\n"@;
    let w9 = w8 + "[cache]\nmax_entries = 1000000\nmax_ttl = "@;
    let w10 = w9 + dec(c.cache_max_ttl as nat);
    let w11 = w10 + "\nmin_ttl = "@;
    let w12 = w11 + dec(c.cache_min_ttl as nat);
    let w13 = w12 + "\nnegative_ttl = 300\n\n"@;
    let w14 = w13 + "[resolver]\n"@;
    let w15 = w14 + forwarders_line(c);
    let w16 = w15 + "dnssec = "@;
    let w17 = w16 + bool_text(c.dnssec);
    let w18 = w17 + "\nqname_minimization = true\n"@;
    let w19 = w18 + dns64_lines(c);
    let w20 = w19 + timeout_line(c);
    let w21 = w20 + forward_block(domains);
    let w22 = w21 + "\n"@;
    let w23 = w22 + authoritative;
    let w24 = w23 + "[control]\nsocket = \"/var/run/rdns/control.sock\"\n\n"@;
    let w25 = w24 + "[metrics]\nenabled = true\naddress = \"127.0.0.1:9153\"\n\n"@;
    let w26 = w25 + "[logging]\nlevel = \""@;
    let w27 = w26 + level;
    let w28 = w27 + "\"\nformat = \"text\"\nquery_log = "@;
    let w29 = w28 + bool_text(c.log_queries);
    let w30 = w29 + "\n\n"@;
    let w31 = w30 + "[security]\nsandbox = false\nrate_limit = 1000\n\n"@;
    let w32 = w31 + policy_lines(c, hosts);
    let part = dns64_lines(c);
    ends_with_1(w18, dns64_lines(c));
    still_within(w19, timeout_line(c), part);
    still_within(w20, forward_block(domains), part);
    still_within(w21, "\n"@, part);
    still_within(w22, authoritative, part);
    still_within(w23, "[control]\nsocket = \"/var/run/rdns/control.sock\"\n\n"@, part);
    still_within(w24, "[metrics]\nenabled = true\naddress = \"127.0.0.1:9153\"\n\n"@, part);
    still_within(w25, "[logging]\nlevel = \""@, part);
    still_within(w26, level, part);
    still_within(w27, "\"\nformat = \"text\"\nquery_log = "@, part);
    still_within(w28, bool_text(c.log_queries), part);
    still_within(w29, "\n\n"@, part);
    still_within(w30, "[security]\nsandbox = false\nrate_limit = 1000\n\n"@, part);
    still_within(w31, policy_lines(c, hosts), part);
    assert(w32 == rdns_conf(c, hosts, domains));
}

/// A query is given up after the time of the settings, where they name one.
pub proof fn queries_time_out(c: ResolverView, hosts: Seq<HostOverride>, domains: Seq<DomainOverride>)
    ensures
        c.query_timeout_ms > 0 ==> has_text(rdns_conf(c, hosts, domains),
            "query_timeout_ms = "@ + dec(c.query_timeout_ms as nat) + "\n"@),
        c.query_timeout_ms == 0 ==> timeout_line(c) == Seq::<char>::empty(),
{
    let need_auth = any_host(hosts) || c.register_dhcp;
    let mode = if need_auth {
        "both"@
    } else {
        "resolver"@
    };
    let authoritative = if need_auth {
        "[authoritative]\nsource = \"zone-files\"\ndirectory = \"/usr/local/etc/rdns/zones\"\n\n"@
    } else {
        "[authoritative]\nsource = \"none\"\n\n"@
    };
    let level = if c.log_verbosity >= 2 {
        "debug"@
    } else {
        "info"@
    };
    let w0 = "# AiFw rDNS Configuration — Auto-generated\n\n"@;
    let w1 = w0 + "[server]\nmode = \""@;
    let w2 = w1 + mode;
    let w3 = w2 + "\"\nuser = \"rdns\"\ngroup = \"rdns\"\npidfile = \"/dev/null\"\n\n"@;
    let w4 = w3 + "[listeners]\nudp = ["@;
    let w5 = w4 + listeners(c);
    let w6 = w5 + "]\ntcp = ["@;
    let w7 = w6 + listeners(c);
    let w8 = w7 + "]\n\n"@;
    let w9 = w8 + "[cache]\nmax_entries = 1000000\nmax_ttl = "@;
    let w10 = w9 + dec(c.cache_max_ttl as nat);
    let w11 = w10 + "\nmin_ttl = "@;
    let w12 = w11 + dec(c.cache_min_ttl as nat);
    let w13 = w12 + "\nnegative_ttl = 300\n\n"@;
    let w14 = w13 + "[resolver]\n"@;
    let w15 = w14 + forwarders_line(c);
    let w16 = w15 + "dnssec = "@;
    let w17 = w16 + bool_text(c.dnssec);
    let w18 = w17 + "\nqname_minimization = true\n"@;
    let w19 = w18 + dns64_lines(c);
    let w20 = w19 + timeout_line(c);
    let w21 = w20 + forward_block(domains);
    let w22 = w21 + "\n"@;
    let w23 = w22 + authoritative;
    let w24 = w23 + "[control]\nsocket = \"/var/run/rdns/control.sock\"\n\n"@;
    let w25 = w24 + "[metrics]\nenabled = true\naddress = \"127.0.0.1:9153\"\n\n"@;
    let w26 = w25 + "[logging]\nlevel = \""@;
    let w27 = w26 + level;
    let w28 = w27 + "\"\nformat = \"text\"\nquery_log = "@;
    let w29 = w28 + bool_text(c.log_queries);
    let w30 = w29 + "\n\n"@;
    let w31 = w30 + "[security]\nsandbox = false\nrate_limit = 1000\n\n"@;
    let w32 = w31 + policy_lines(c, hosts);
    let part = timeout_line(c);
    ends_with_1(w19, timeout_line(c));
    still_within(w20, forward_block(domains), part);
    still_within(w21, "\n"@, part);
    still_within(w22, authoritative, part);
    still_within(w23, "[control]\nsocket = \"/var/run/rdns/control.sock\"\n\n"@, part);
    still_within(w24, "[metrics]\nenabled = true\naddress = \"127.0.0.1:9153\"\n\n"@, part);
    still_within(w25, "[logging]\nlevel = \""@, part);
    still_within(w26, level, part);
    still_within(w27, "\"\nformat = \"text\"\nquery_log = "@, part);
    still_within(w28, bool_text(c.log_queries), part);
    still_within(w29, "\n\n"@, part);
    still_within(w30, "[security]\nsandbox = false\nrate_limit = 1000\n\n"@, part);
    still_within(w31, policy_lines(c, hosts), part);
    assert(w32 == rdns_conf(c, hosts, domains));
}

/// The server can be controlled and measured.
pub proof fn server_is_watched(c: ResolverView, hosts: Seq<HostOverride>, domains: Seq<DomainOverride>)
    ensures
        has_text(
            rdns_conf(c, hosts, domains),
            "[control]\nsocket = \"/var/run/rdns/control.sock\"\n\n"@
                + "[metrics]\nenabled = true\naddress = \"127.0.0.1:9153\"\n\n"@,
        ),
{
    let need_auth = any_host(hosts) || c.register_dhcp;
    let mode = if need_auth {
        "both"@
    } else {
        "resolver"@
    };
    let authoritative = if need_auth {
        "[authoritative]\nsource = \"zone-files\"\ndirectory = \"/usr/local/etc/rdns/zones\"\n\n"@
    } else {
        "[authoritative]\nsource = \"none\"\n\n"@
    };
    let level = if c.log_verbosity >= 2 {
        "debug"@
    } else {
        "info"@
    };
    let w0 = "# AiFw rDNS Configuration — Auto-generated\n\n"@;
    let w1 = w0 + "[server]\nmode = \""@;
    let w2 = w1 + mode;
    let w3 = w2 + "\"\nuser = \"rdns\"\ngroup = \"rdns\"\npidfile = \"/dev/null\"\n\n"@;
    let w4 = w3 + "[listeners]\nudp = ["@;
    let w5 = w4 + listeners(c);
    let w6 = w5 + "]\ntcp = ["@;
    let w7 = w6 + listeners(c);
    let w8 = w7 + "]\n\n"@;
    let w9 = w8 + "[cache]\nmax_entries = 1000000\nmax_ttl = "@;
    let w10 = w9 + dec(c.cache_max_ttl as nat);
    let w11 = w10 + "\nmin_ttl = "@;
    let w12 = w11 + dec(c.cache_min_ttl as nat);
    let w13 = w12 + "\nnegative_ttl = 300\n\n"@;
    let w14 = w13 + "[resolver]\n"@;
    let w15 = w14 + forwarders_line(c);
    let w16 = w15 + "dnssec = "@;
    let w17 = w16 + bool_text(c.dnssec);
    let w18 = w17 + "\nqname_minimization = true\n"@;
    let w19 = w18 + dns64_lines(c);
    let w20 = w19 + timeout_line(c);
    let w21 = w20 + forward_block(domains);
    let w22 = w21 + "\n"@;
    let w23 = w22 + authoritative;
    let w24 = w23 + "[control]\nsocket = \"/var/run/rdns/control.sock\"\n\n"@;
    let w25 = w24 + "[metrics]\nenabled = true\naddress = \"127.0.0.1:9153\"\n\n"@;
    let w26 = w25 + "[logging]\nlevel = \""@;
    let w27 = w26 + level;
    let w28 = w27 + "\"\nformat = \"text\"\nquery_log = "@;
    let w29 = w28 + bool_text(c.log_queries);
    let w30 = w29 + "\n\n"@;
    let w31 = w30 + "[security]\nsandbox = false\nrate_limit = 1000\n\n"@;
    let w32 = w31 + policy_lines(c, hosts);
    let part = "[control]\nsocket = \"/var/run/rdns/control.sock\"\n\n"@
        + "[metrics]\nenabled = true\naddress = \"127.0.0.1:9153\"\n\n"@;
    ends_with_2(w23, "[control]\nsocket = \"/var/run/rdns/control.sock\"\n\n"@,
        "[metrics]\nenabled = true\naddress = \"127.0.0.1:9153\"\n\n"@);
    still_within(w25, "[logging]\nlevel = \""@, part);
    still_within(w26, level, part);
    still_within(w27, "\"\nformat = \"text\"\nquery_log = "@, part);
    still_within(w28, bool_text(c.log_queries), part);
    still_within(w29, "\n\n"@, part);
    still_within(w30, "[security]\nsandbox = false\nrate_limit = 1000\n\n"@, part);
    still_within(w31, policy_lines(c, hosts), part);
    assert(w32 == rdns_conf(c, hosts, domains));
}

/// The log is as verbose as the settings say, and holds queries where they say
/// so.
pub proof fn server_logs(c: ResolverView, hosts: Seq<HostOverride>, domains: Seq<DomainOverride>)
    ensures
        has_text(
            rdns_conf(c, hosts, domains),
            "[logging]\nlevel = \""@ + (if c.log_verbosity >= 2 {
                "debug"@
            } else {
                "info"@
            }) + "\"\nformat = \"text\"\nquery_log = "@ + (if c.log_queries {
                "true"@
            } else {
                "false"@
            }) + "\n\n"@,
        ),
{
    let need_auth = any_host(hosts) || c.register_dhcp;
    let mode = if need_auth {
        "both"@
    } else {
        "resolver"@
    };
    let authoritative = if need_auth {
        "[authoritative]\nsource = \"zone-files\"\ndirectory = \"/usr/local/etc/rdns/zones\"\n\n"@
    } else {
        "[authoritative]\nsource = \"none\"\n\n"@
    };
    let level = if c.log_verbosity >= 2 {
        "debug"@
    } else {
        "info"@
    };
    let w0 = "# AiFw rDNS Configuration — Auto-generated\n\n"@;
    let w1 = w0 + "[server]\nmode = \""@;
    let w2 = w1 + mode;
    let w3 = w2 + "\"\nuser = \"rdns\"\ngroup = \"rdns\"\npidfile = \"/dev/null\"\n\n"@;
    let w4 = w3 + "[listeners]\nudp = ["@;
    let w5 = w4 + listeners(c);
    let w6 = w5 + "]\ntcp = ["@;
    let w7 = w6 + listeners(c);
    let w8 = w7 + "]\n\n"@;
    let w9 = w8 + "[cache]\nmax_entries = 1000000\nmax_ttl = "@;
    let w10 = w9 + dec(c.cache_max_ttl as nat);
    let w11 = w10 + "\nmin_ttl = "@;
    let w12 = w11 + dec(c.cache_min_ttl as nat);
    let w13 = w12 + "\nnegative_ttl = 300\n\n"@;
    let w14 = w13 + "[resolver]\n"@;
    let w15 = w14 + forwarders_line(c);
    let w16 = w15 + "dnssec = "@;
    let w17 = w16 + bool_text(c.dnssec);
    let w18 = w17 + "\nqname_minimization = true\n"@;
    let w19 = w18 + dns64_lines(c);
    let w20 = w19 + timeout_line(c);
    let w21 = w20 + forward_block(domains);
    let w22 = w21 + "\n"@;
    let w23 = w22 + authoritative;
    let w24 = w23 + "[control]\nsocket = \"/var/run/rdns/control.sock\"\n\n"@;
    let w25 = w24 + "[metrics]\nenabled = true\naddress = \"127.0.0.1:9153\"\n\n"@;
    let w26 = w25 + "[logging]\nlevel = \""@;
    let w27 = w26 + level;
    let w28 = w27 + "\"\nformat = \"text\"\nquery_log = "@;
    let w29 = w28 + bool_text(c.log_queries);
    let w30 = w29 + "\n\n"@;
    let w31 = w30 + "[security]\nsandbox = false\nrate_limit = 1000\n\n"@;
    let w32 = w31 + policy_lines(c, hosts);
    let part = "[logging]\nlevel = \""@ + level + "\"\nformat = \"text\"\nquery_log = "@ + bool_text(c.log_queries)
        + "\n\n"@;
    ends_with_5(w25, "[logging]\nlevel = \""@, level, "\"\nformat = \"text\"\nquery_log = "@,
        bool_text(c.log_queries), "\n\n"@);
    still_within(w30, "[security]\nsandbox = false\nrate_limit = 1000\n\n"@, part);
    still_within(w31, policy_lines(c, hosts), part);
    assert(w32 == rdns_conf(c, hosts, domains));
}

/// The policy zone of the hosts is read where a host is switched on, and that of
/// the lists where lists are.
pub proof fn policies_are_read(c: ResolverView, hosts: Seq<HostOverride>, domains: Seq<DomainOverride>)
    ensures
        has_text(rdns_conf(c, hosts, domains), policy_lines(c, hosts)),
        policy_lines(c, hosts) == (if exists|i: int| 0 <= i < hosts.len() && (#[trigger] hosts[i]).enabled {
            "[[rpz.zones]]\nname = \"rpz.hosts\"\nfile = \"/usr/local/etc/rdns/rpz/hosts.rpz\"\n\n"@
        } else {
            Seq::<char>::empty()
        }) + (if c.blocklists_enabled && c.blocklist_urls.len() > 0 {
            "[[rpz.zones]]\nname = \"rpz.blocklist\"\nfile = \"/usr/local/etc/rdns/rpz/blocklist.rpz\"\n\n"@
        } else {
            Seq::<char>::empty()
        }),
{
    let need_auth = any_host(hosts) || c.register_dhcp;
    let mode = if need_auth {
        "both"@
    } else {
        "resolver"@
    };
    let authoritative = if need_auth {
        "[authoritative]\nsource = \"zone-files\"\ndirectory = \"/usr/local/etc/rdns/zones\"\n\n"@
    } else {
        "[authoritative]\nsource = \"none\"\n\n"@
    };
    let level = if c.log_verbosity >= 2 {
        "debug"@
    } else {
        "info"@
    };
    let w0 = "# AiFw rDNS Configuration — Auto-generated\n\n"@;
    let w1 = w0 + "[server]\nmode = \""@;
    let w2 = w1 + mode;
    let w3 = w2 + "\"\nuser = \"rdns\"\ngroup = \"rdns\"\npidfile = \"/dev/null\"\n\n"@;
    let w4 = w3 + "[listeners]\nudp = ["@;
    let w5 = w4 + listeners(c);
    let w6 = w5 + "]\ntcp = ["@;
    let w7 = w6 + listeners(c);
    let w8 = w7 + "]\n\n"@;
    let w9 = w8 + "[cache]\nmax_entries = 1000000\nmax_ttl = "@;
    let w10 = w9 + dec(c.cache_max_ttl as nat);
    let w11 = w10 + "\nmin_ttl = "@;
    let w12 = w11 + dec(c.cache_min_ttl as nat);
    let w13 = w12 + "\nnegative_ttl = 300\n\n"@;
    let w14 = w13 + "[resolver]\n"@;
    let w15 = w14 + forwarders_line(c);
    let w16 = w15 + "dnssec = "@;
    let w17 = w16 + bool_text(c.dnssec);
    let w18 = w17 + "\nqname_minimization = true\n"@;
    let w19 = w18 + dns64_lines(c);
    let w20 = w19 + timeout_line(c);
    let w21 = w20 + forward_block(domains);
    let w22 = w21 + "\n"@;
    let w23 = w22 + authoritative;
    let w24 = w23 + "[control]\nsocket = \"/var/run/rdns/control.sock\"\n\n"@;
    let w25 = w24 + "[metrics]\nenabled = true\naddress = \"127.0.0.1:9153\"\n\n"@;
    let w26 = w25 + "[logging]\nlevel = \""@;
    let w27 = w26 + level;
    let w28 = w27 + "\"\nformat = \"text\"\nquery_log = "@;
    let w29 = w28 + bool_text(c.log_queries);
    let w30 = w29 + "\n\n"@;
    let w31 = w30 + "[security]\nsandbox = false\nrate_limit = 1000\n\n"@;
    let w32 = w31 + policy_lines(c, hosts);
    let part = policy_lines(c, hosts);
    ends_with_1(w31, policy_lines(c, hosts));
    assert(w32 == rdns_conf(c, hosts, domains));
}

/// The server listens on the port of the settings on each of their interfaces.
pub proof fn listeners_have_the_port(c: ResolverView, i: int)
    requires
        0 <= i < c.listen_interfaces.len(),
    ensures
        has_text(listeners(c), "\""@ + c.listen_interfaces[i] + (":"@ + dec(c.port as nat) + "\""@)),
{
    let w = wrapped("\""@, c.listen_interfaces, ":"@ + dec(c.port as nat) + "\""@);
    join_around(w, i, ", "@);
    text_is_within(joined_before(w, i, ", "@), w[i], joined_behind(w, i, ", "@));
}

// ---------------------------------------------------------------------------
// Domains with a server of their own
// ---------------------------------------------------------------------------

/// The domains are taken one after the other.
pub proof fn domains_in_order(a: Seq<DomainOverride>, b: Seq<DomainOverride>)
    ensures
        forward_zones(Seq::<DomainOverride>::empty()) == Seq::<char>::empty(),
        forward_zones(a + b) == forward_zones(a) + forward_zones(b),
    decreases b.len(),
{
    if b.len() == 0 {
        assert(a + b =~= a);
        assert(forward_zones(a) + forward_zones(b) =~= forward_zones(a));
    } else {
        assert((a + b).drop_last() =~= a + b.drop_last());
        domains_in_order(a, b.drop_last());
        assert(forward_zones(a + b) =~= forward_zones(a) + forward_zones(b));
    }
}

/// So are those that are switched on.
pub proof fn enabled_domains_in_order(a: Seq<DomainOverride>, b: Seq<DomainOverride>)
    ensures
        enabled_domains(Seq::<DomainOverride>::empty()) == Seq::<DomainOverride>::empty(),
        enabled_domains(a + b) == enabled_domains(a) + enabled_domains(b),
    decreases b.len(),
{
    if b.len() == 0 {
        assert(a + b =~= a);
        assert(enabled_domains(a) + enabled_domains(b) =~= enabled_domains(a));
    } else {
        assert((a + b).drop_last() =~= a + b.drop_last());
        enabled_domains_in_order(a, b.drop_last());
        assert(enabled_domains(a + b) =~= enabled_domains(a) + enabled_domains(b));
    }
}

/// A domain that is switched on is forwarded to the address of its server; one
/// that is not has no zone.
pub proof fn domain_goes_to_its_server(x: DomainOverride)
    ensures
        x.enabled ==> forward_zones(Seq::<DomainOverride>::empty().push(x))
            == "[[resolver.forward_zones]]\nname = \""@ + x.domain@ + "\"\nforwarders = [\""@
            + server_address(x.server@) + "\"]\n\n"@,
        !x.enabled ==> forward_zones(Seq::<DomainOverride>::empty().push(x)) == Seq::<char>::empty(),
        x.enabled ==> enabled_domains(Seq::<DomainOverride>::empty().push(x)) == Seq::<DomainOverride>::empty().push(x),
        !x.enabled ==> enabled_domains(Seq::<DomainOverride>::empty().push(x)) == Seq::<DomainOverride>::empty(),
{
    reveal_with_fuel(forward_zones, 2);
    assert(Seq::<DomainOverride>::empty().push(x).drop_last() =~= Seq::<DomainOverride>::empty());
    reveal_with_fuel(enabled_domains, 2);
    assert(Seq::<char>::empty() + forward_zone(x) =~= forward_zone(x));
}

proof fn lemma_zone_within(domains: Seq<DomainOverride>, i: int)
    requires
        0 <= i < domains.len(),
        domains[i].enabled,
    ensures
        has_text(forward_block(domains), forward_zone(domains[i])),
{
    let x = domains[i];
    let one = Seq::<DomainOverride>::empty().push(x);
    assert(domains =~= domains.take(i) + one + domains.skip(i + 1));
    domains_in_order(domains.take(i), one);
    domains_in_order(domains.take(i) + one, domains.skip(i + 1));
    enabled_domains_in_order(domains.take(i), one);
    enabled_domains_in_order(domains.take(i) + one, domains.skip(i + 1));
    domain_goes_to_its_server(x);
    let before = forward_zones(domains.take(i));
    let behind = forward_zones(domains.skip(i + 1));
    text_is_within("\n"@ + before, forward_zone(x), behind);
    assert("\n"@ + before + forward_zone(x) + behind =~= "\n"@ + (before + forward_zone(x) + behind));
}

/// Every domain that is switched on is forwarded in the file.
pub proof fn domains_are_forwarded(c: ResolverView, hosts: Seq<HostOverride>, domains: Seq<DomainOverride>, i: int)
    requires
        0 <= i < domains.len(),
        domains[i].enabled,
    ensures
        has_text(
            rdns_conf(c, hosts, domains),
            "[[resolver.forward_zones]]\nname = \""@ + domains[i].domain@ + "\"\nforwarders = [\""@ + server_address(
                domains[i].server@,
            ) + "\"]\n\n"@,
        ),
{
    lemma_zone_within(domains, i);
    let need_auth = any_host(hosts) || c.register_dhcp;
    let mode = if need_auth {
        "both"@
    } else {
        "resolver"@
    };
    let authoritative = if need_auth {
        "[authoritative]\nsource = \"zone-files\"\ndirectory = \"/usr/local/etc/rdns/zones\"\n\n"@
    } else {
        "[authoritative]\nsource = \"none\"\n\n"@
    };
    let level = if c.log_verbosity >= 2 {
        "debug"@
    } else {
        "info"@
    };
    let w0 = "# AiFw rDNS Configuration — Auto-generated\n\n"@;
    let w1 = w0 + "[server]\nmode = \""@;
    let w2 = w1 + mode;
    let w3 = w2 + "\"\nuser = \"rdns\"\ngroup = \"rdns\"\npidfile = \"/dev/null\"\n\n"@;
    let w4 = w3 + "[listeners]\nudp = ["@;
    let w5 = w4 + listeners(c);
    let w6 = w5 + "]\ntcp = ["@;
    let w7 = w6 + listeners(c);
    let w8 = w7 + "]\n\n"@;
    let w9 = w8 + "[cache]\nmax_entries = 1000000\nmax_ttl = "@;
    let w10 = w9 + dec(c.cache_max_ttl as nat);
    let w11 = w10 + "\nmin_ttl = "@;
    let w12 = w11 + dec(c.cache_min_ttl as nat);
    let w13 = w12 + "\nnegative_ttl = 300\n\n"@;
    let w14 = w13 + "[resolver]\n"@;
    let w15 = w14 + forwarders_line(c);
    let w16 = w15 + "dnssec = "@;
    let w17 = w16 + bool_text(c.dnssec);
    let w18 = w17 + "\nqname_minimization = true\n"@;
    let w19 = w18 + dns64_lines(c);
    let w20 = w19 + timeout_line(c);
    let w21 = w20 + forward_block(domains);
    let w22 = w21 + "\n"@;
    let w23 = w22 + authoritative;
    let w24 = w23 + "[control]\nsocket = \"/var/run/rdns/control.sock\"\n\n"@;
    let w25 = w24 + "[metrics]\nenabled = true\naddress = \"127.0.0.1:9153\"\n\n"@;
    let w26 = w25 + "[logging]\nlevel = \""@;
    let w27 = w26 + level;
    let w28 = w27 + "\"\nformat = \"text\"\nquery_log = "@;
    let w29 = w28 + bool_text(c.log_queries);
    let w30 = w29 + "\n\n"@;
    let w31 = w30 + "[security]\nsandbox = false\nrate_limit = 1000\n\n"@;
    let w32 = w31 + policy_lines(c, hosts);
    let part = forward_block(domains);
    ends_with_1(w20, forward_block(domains));
    still_within(w21, "\n"@, part);
    still_within(w22, authoritative, part);
    still_within(w23, "[control]\nsocket = \"/var/run/rdns/control.sock\"\n\n"@, part);
    still_within(w24, "[metrics]\nenabled = true\naddress = \"127.0.0.1:9153\"\n\n"@, part);
    still_within(w25, "[logging]\nlevel = \""@, part);
    still_within(w26, level, part);
    still_within(w27, "\"\nformat = \"text\"\nquery_log = "@, part);
    still_within(w28, bool_text(c.log_queries), part);
    still_within(w29, "\n\n"@, part);
    still_within(w30, "[security]\nsandbox = false\nrate_limit = 1000\n\n"@, part);
    still_within(w31, policy_lines(c, hosts), part);
    assert(w32 == rdns_conf(c, hosts, domains));
    within_is_transitive(rdns_conf(c, hosts, domains), part, forward_zone(domains[i]));
}

/// The address of a server is what stands before its port. An IPv6 address is
/// kept whole, and taken out of its brackets.
pub proof fn server_without_its_port(a: Seq<char>, port: Seq<char>)
    ensures
        is_ipv6(a) ==> server_address(a) == a,
        is_ipv6(a) && !a.contains(']') && !is_ipv6(seq!['['] + a + seq![']'] + port) ==> server_address(
            seq!['['] + a + seq![']'] + port,
        ) == a,
        !a.contains(':') && !port.contains(':') && (a.len() == 0 || a[0] != '[') && !is_ipv6(a + seq![':'] + port)
            ==> server_address(a + seq![':'] + port) == a,
        !a.contains(':') && (a.len() == 0 || a[0] != '[') && !is_ipv6(a) ==> server_address(a) == a,
{
    let s = seq!['['] + a + seq![']'] + port;
    assert(s.skip(1) =~= a + seq![']'] + port);
    if !a.contains(']') {
        lemma_first_piece(a, port, ']');
    }
    if !a.contains(':') {
        lemma_first_piece(a, port, ':');
        lemma_only_piece(a, ':');
        let t = a + seq![':'] + port;
        if a.len() > 0 {
            assert(t[0] == a[0]);
        } else {
            assert(t[0] == ':');
        }
    }
}

proof fn lemma_only_piece(a: Seq<char>, sep: char)
    requires
        !a.contains(sep),
    ensures
        split(a, sep) == seq![a],
{
    let l = seq![a];
    split_of_join(l, sep);
    assert(join(l, seq![sep]) == a);
}

/// The first piece is what stands before the first separator.
proof fn lemma_first_piece(a: Seq<char>, b: Seq<char>, sep: char)
    requires
        !a.contains(sep),
    ensures
        split(a + seq![sep] + b, sep).len() >= 2,
        split(a + seq![sep] + b, sep)[0] == a,
    decreases b.len(),
{
    let s = a + seq![sep] + b;
    if b.len() == 0 {
        assert(s.drop_last() =~= a);
        lemma_only_piece(a, sep);
    } else {
        let t = a + seq![sep] + b.drop_last();
        assert(s.drop_last() =~= t);
        lemma_first_piece(a, b.drop_last(), sep);
    }
}

// ---------------------------------------------------------------------------
// Zones
// ---------------------------------------------------------------------------

/// The dotted form of four labels.
pub open spec fn labels(a: Seq<char>, b: Seq<char>, c: Seq<char>, d: Seq<char>) -> Seq<char> {
    a + "."@ + b + "."@ + c + "."@ + d
}

proof fn lemma_labels(a: Seq<char>, b: Seq<char>, c: Seq<char>, d: Seq<char>)
    requires
        !a.contains('.'),
        !b.contains('.'),
        !c.contains('.'),
        !d.contains('.'),
    ensures
        split(labels(a, b, c, d), '.') == seq![a, b, c, d],
{
    reveal_strlit(".");
    assert("."@ =~= seq!['.']);
    let l = seq![a, b, c, d];
    let sep = seq!['.'];
    reveal_with_fuel(join, 5);
    assert(l.drop_last() =~= seq![a, b, c]);
    assert(seq![a, b, c].drop_last() =~= seq![a, b]);
    assert(seq![a, b].drop_last() =~= seq![a]);
    assert(join(seq![a], sep) == a);
    assert(join(seq![a, b], sep) == a + sep + b);
    assert(join(seq![a, b, c], sep) == a + sep + b + sep + c);
    assert(join(l, sep) == labels(a, b, c, d));
    split_of_join(l, '.');
}

/// The record that leads back from an address holds its bytes in reverse, and
/// leads to the name.
pub proof fn addresses_lead_back(a: Seq<char>, b: Seq<char>, c: Seq<char>, d: Seq<char>, name: Seq<char>)
    requires
        !a.contains('.'),
        !b.contains('.'),
        !c.contains('.'),
        !d.contains('.'),
    ensures
        ptr_record(labels(a, b, c, d), name) == d + "."@ + c + "."@ + b + "."@ + a + ".in-addr.arpa. IN PTR "@ + name,
{
    lemma_labels(a, b, c, d);
}

/// A name in a zone file ends with one dot.
pub proof fn names_are_rooted(name: Seq<char>)
    ensures
        has_suffix(rooted(name), "."@),
        has_suffix(name, "."@) ==> rooted(name) == name,
        !has_suffix(name, "."@) ==> rooted(name) == name + "."@,
        rooted(rooted(name)) == rooted(name),
{
    let r = name + "."@;
    assert(r.skip(r.len() - "."@.len()) =~= "."@);
}

proof fn lemma_kinds_differ()
    ensures
        "A"@ != "AAAA"@,
        "A"@ != "CNAME"@,
        "AAAA"@ != "CNAME"@,
{
    reveal_strlit("A");
    reveal_strlit("AAAA");
    reveal_strlit("CNAME");
    assert("A"@.len() == 1 && "AAAA"@.len() == 4 && "CNAME"@.len() == 5);
}

/// The hosts are taken one after the other.
pub proof fn host_records_in_order(a: Seq<HostOverride>, b: Seq<HostOverride>)
    ensures
        host_ptrs(Seq::<HostOverride>::empty()) == Seq::<Seq<char>>::empty(),
        host_ptrs(a + b) == host_ptrs(a) + host_ptrs(b),
    decreases b.len(),
{
    if b.len() == 0 {
        assert(a + b =~= a);
        assert(host_ptrs(a) + host_ptrs(b) =~= host_ptrs(a));
    } else {
        assert((a + b).drop_last() =~= a + b.drop_last());
        host_records_in_order(a, b.drop_last());
        assert(host_ptrs(a + b) =~= host_ptrs(a) + host_ptrs(b));
    }
}

/// The address of a host that is switched on leads back to its full name; other
/// kinds of records lead nowhere back.
pub proof fn host_leads_back(x: HostOverride)
    ensures
        x.enabled && x.record_type@ == "A"@ && split(x.value@, '.').len() == 4
            ==> host_ptrs(Seq::<HostOverride>::empty().push(x)) == Seq::<Seq<char>>::empty().push(
            ptr_record(x.value@, rooted(fqdn(x))),
        ),
        !x.enabled || x.record_type@ != "A"@ || split(x.value@, '.').len() != 4
            ==> host_ptrs(Seq::<HostOverride>::empty().push(x)) == Seq::<Seq<char>>::empty(),
{
    reveal_with_fuel(host_ptrs, 2);
    assert(Seq::<HostOverride>::empty().push(x).drop_last() =~= Seq::<HostOverride>::empty());
}

/// The full name of a host is its name in its domain.
pub proof fn full_name_of_a_host(h: HostOverride)
    ensures
        h.domain@.len() == 0 ==> fqdn(h) == h.hostname@,
        h.domain@.len() > 0 ==> fqdn(h) == h.hostname@ + "."@ + h.domain@,
{
}

/// The leases are taken one after the other.
pub proof fn lease_records_in_order(a: Seq<Lease>, b: Seq<Lease>)
    ensures
        lease_records(Seq::<Lease>::empty()) == Seq::<char>::empty(),
        lease_records(a + b) == lease_records(a) + lease_records(b),
    decreases b.len(),
{
    if b.len() == 0 {
        assert(a + b =~= a);
        assert(lease_records(a) + lease_records(b) =~= lease_records(a));
    } else {
        assert((a + b).drop_last() =~= a + b.drop_last());
        lease_records_in_order(a, b.drop_last());
        assert(lease_records(a + b) =~= lease_records(a) + lease_records(b));
    }
}

/// So they are on the way back.
pub proof fn lease_pointers_in_order(a: Seq<Lease>, b: Seq<Lease>, domain: Seq<char>)
    ensures
        lease_ptrs(Seq::<Lease>::empty(), domain) == Seq::<Seq<char>>::empty(),
        lease_ptrs(a + b, domain) == lease_ptrs(a, domain) + lease_ptrs(b, domain),
    decreases b.len(),
{
    if b.len() == 0 {
        assert(a + b =~= a);
        assert(lease_ptrs(a, domain) + lease_ptrs(b, domain) =~= lease_ptrs(a, domain));
    } else {
        assert((a + b).drop_last() =~= a + b.drop_last());
        lease_pointers_in_order(a, b.drop_last(), domain);
        assert(lease_ptrs(a + b, domain) =~= lease_ptrs(a, domain) + lease_ptrs(b, domain));
    }
}

/// A lease with a name and an address is answered in both directions, its name
/// being the first label in the domain of the leases.
pub proof fn lease_is_answered(x: Lease, domain: Seq<char>)
    ensures
        x.ip@.len() > 0 && x.hostname@.len() > 0
            ==> lease_records(Seq::<Lease>::empty().push(x)) == padded(lease_host(x),
            24) + " IN A       "@ + x.ip@ + "\n"@,
        x.ip@.len() == 0 || x.hostname@.len() == 0
            ==> lease_records(Seq::<Lease>::empty().push(x)) == Seq::<char>::empty()
            && lease_ptrs(Seq::<Lease>::empty().push(x), domain) == Seq::<
            Seq<char>,
        >::empty(),
        x.ip@.len() > 0 && x.hostname@.len() > 0 && split(x.ip@, '.').len() == 4
            ==> lease_ptrs(Seq::<Lease>::empty().push(x), domain) == Seq::<
            Seq<char>,
        >::empty().push(ptr_record(x.ip@, lease_host(x) + "."@ + domain + "."@)),
        split(x.ip@, '.').len() != 4 ==> lease_ptrs(Seq::<Lease>::empty().push(x), domain) == Seq::<Seq<char>>::empty(),
        lease_host(x) == crate::text::unicode_lowercase(split(x.hostname@, '.')[0]),
{
    reveal_with_fuel(lease_records, 2);
    assert(Seq::<Lease>::empty().push(x).drop_last() =~= Seq::<Lease>::empty());
    reveal_with_fuel(lease_ptrs, 2);
    let line = padded(lease_host(x), 24) + " IN A       "@ + x.ip@ + "\n"@;
    assert(Seq::<char>::empty() + line =~= line);
}

/// The zone of the leases says whose it is, when it was made, and what the
/// leases are.
pub proof fn zone_of_the_leases(c: ResolverView, domain: Seq<char>, ls: Seq<Lease>, serial: nat)
    ensures
        c.dhcp_domain.len() == 0 ==> lease_domain(c) == "local"@,
        c.dhcp_domain.len() > 0 ==> lease_domain(c) == c.dhcp_domain,
        has_suffix(lease_zone(domain, ls, serial), lease_records(ls)),
        has_text(lease_zone(domain, ls, serial),
            "$TTL 60\n$ORIGIN "@ + domain + ".\n@ IN SOA ns1."@ + domain + ". admin."@ + domain + ". "@ + dec(serial)),
        has_text(lease_zone(domain, ls, serial), "\n  IN NS  ns1."@ + domain + ".\n"@),
        lease_zone(domain, ls, serial).len() == "$TTL 60\n$ORIGIN .\n@ IN SOA ns1.. admin.. "@.len() + dec(serial).len()
            + " 3600 900 604800 60\n  IN NS  ns1..\n"@.len() + 4 * domain.len() + lease_records(ls).len(),
{
    let top = "$TTL 60\n$ORIGIN "@ + domain + ".\n@ IN SOA ns1."@ + domain + ". admin."@ + domain + ". "@ + dec(serial);
    let mid = " 3600 900 604800 60\n  IN NS  ns1."@;
    let z = lease_zone(domain, ls, serial);
    let e = Seq::<char>::empty();
    assert(z == top + mid + domain + ".\n"@ + lease_records(ls));
    let front = top + mid + domain + ".\n"@;
    assert(z.skip(z.len() - lease_records(ls).len()) =~= lease_records(ls));
    text_is_within(e, top, e);
    assert(e + top + e =~= top);
    still_within(top, mid, top);
    still_within(top + mid, domain, top);
    still_within(top + mid + domain, ".\n"@, top);
    still_within(front, lease_records(ls), top);
    let ns = "\n  IN NS  ns1."@;
    reveal_strlit(" 3600 900 604800 60\n  IN NS  ns1.");
    reveal_strlit("\n  IN NS  ns1.");
    assert(mid =~= mid.take(19) + ns);
    text_is_within(top + mid.take(19), ns + domain + ".\n"@, lease_records(ls));
    assert(top + mid.take(19) + (ns + domain + ".\n"@) + lease_records(ls) =~= z);
    reveal_strlit("$TTL 60\n$ORIGIN .\n@ IN SOA ns1.. admin.. ");
    reveal_strlit("$TTL 60\n$ORIGIN ");
    reveal_strlit(".\n@ IN SOA ns1.");
    reveal_strlit(". admin.");
    reveal_strlit(". ");
    reveal_strlit(".\n");
    reveal_strlit(" 3600 900 604800 60\n  IN NS  ns1..\n");
}

/// A record goes into the zone of the network of its address.
pub proof fn records_go_into_their_network(a: Seq<char>, b: Seq<char>, c: Seq<char>, d: Seq<char>, name: Seq<char>)
    requires
        !a.contains('.'),
        !b.contains('.'),
        !c.contains('.'),
        !d.contains('.'),
    ensures
        reverse_zone(ptr_record(labels(a, b, c, d), name)) == Some(c + "."@ + b + "."@ + a + ".in-addr.arpa"@),
{
    lemma_labels(a, b, c, d);
    reveal_strlit(".");
    reveal_strlit(".in-addr.arpa. IN PTR ");
    let dot = seq!['.'];
    assert("."@ =~= dot);
    let tail = ".in-addr.arpa. IN PTR "@;
    let arpa = "in-addr"@;
    reveal_strlit("in-addr");
    let rest = tail.skip(9);
    assert(tail =~= dot + arpa + dot + rest);
    let s = ptr_record(labels(a, b, c, d), name);
    let r4 = arpa + dot + (rest + name);
    assert(!arpa.contains('.'));
    assert(s =~= d + dot + (c + dot + (b + dot + (a + dot + r4))));
    lemma_rest_pieces(arpa, rest + name, '.');
    lemma_rest_pieces(a, r4, '.');
    lemma_rest_pieces(b, a + dot + r4, '.');
    lemma_rest_pieces(c, b + dot + (a + dot + r4), '.');
    lemma_rest_pieces(d, c + dot + (b + dot + (a + dot + r4)), '.');
    split_pieces(rest + name, '.');
    lemma_rest_len(rest, name);
}

/// The rest of the tail holds a dot.
proof fn lemma_rest_len(rest: Seq<char>, name: Seq<char>)
    requires
        rest == ".in-addr.arpa. IN PTR "@.skip(9),
    ensures
        split(rest + name, '.').len() >= 2,
{
    reveal_strlit(".in-addr.arpa. IN PTR ");
    let a = rest.take(4);
    let b = rest.skip(5) + name;
    assert(rest[4] == '.');
    assert(rest + name =~= a + seq!['.'] + b);
    assert forall|i: int| 0 <= i < a.len() implies a[i] != '.' by {}
    assert(!a.contains('.'));
    lemma_first_piece(a, b, '.');
}

/// The pieces behind the first separator are those of what stands there.
proof fn lemma_rest_pieces(a: Seq<char>, b: Seq<char>, sep: char)
    requires
        !a.contains(sep),
    ensures
        split(a + seq![sep] + b, sep) == seq![a] + split(b, sep),
{
    let l = seq![a] + split(b, sep);
    split_pieces(b, sep);
    crate::text::join_of_split(b, sep);
    assert forall|i: int| 0 <= i < l.len() implies !(#[trigger] l[i]).contains(sep) by {
        if i > 0 {
            assert(l[i] == split(b, sep)[i - 1]);
        }
    }
    crate::lists::join_of_append(seq![a], split(b, sep), seq![sep]);
    assert(join(seq![a], seq![sep]) == a);
    split_of_join(l, sep);
}

/// There is a zone for each network that a record belongs to, and only once.
pub proof fn each_network_has_one_zone(ptrs: Seq<Seq<char>>, z: Seq<char>)
    ensures
        reverse_zones(ptrs).contains(z) <==> exists|i: int| 0 <= i < ptrs.len()
            && reverse_zone(#[trigger] ptrs[i]) == Some(z),
        reverse_zones(ptrs).no_duplicates(),
    decreases ptrs.len(),
{
    if ptrs.len() > 0 {
        let init = ptrs.drop_last();
        each_network_has_one_zone(init, z);
        let r = reverse_zones(init);
        if reverse_zone(ptrs.last()) is Some {
            push_holds(r, reverse_zone(ptrs.last())->0, z);
        }
        if exists|i: int| 0 <= i < init.len() && reverse_zone(#[trigger] init[i]) == Some(z) {
            let i = choose|i: int| 0 <= i < init.len() && reverse_zone(#[trigger] init[i]) == Some(z);
            assert(reverse_zone(ptrs[i]) == Some(z));
        }
        if exists|i: int| 0 <= i < ptrs.len() && reverse_zone(#[trigger] ptrs[i]) == Some(z) {
            let i = choose|i: int| 0 <= i < ptrs.len() && reverse_zone(#[trigger] ptrs[i]) == Some(z);
            if i < init.len() {
                assert(reverse_zone(init[i]) == Some(z));
            }
        }
        assert(ptrs[ptrs.len() - 1] == ptrs.last());
    }
}

/// The records of a zone are taken one after the other.
pub proof fn zone_records_in_order(a: Seq<Seq<char>>, b: Seq<Seq<char>>, zone: Seq<char>)
    ensures
        zone_records(Seq::<Seq<char>>::empty(), zone) == Seq::<char>::empty(),
        zone_records(a + b, zone) == zone_records(a, zone) + zone_records(b, zone),
    decreases b.len(),
{
    if b.len() == 0 {
        assert(a + b =~= a);
        assert(zone_records(a, zone) + zone_records(b, zone) =~= zone_records(a, zone));
    } else {
        assert((a + b).drop_last() =~= a + b.drop_last());
        zone_records_in_order(a, b.drop_last(), zone);
        assert(zone_records(a + b, zone) =~= zone_records(a, zone) + zone_records(b, zone));
    }
}

/// A record gets a line in the zone of its network, and in no other.
pub proof fn record_stands_in_its_zone(x: Seq<char>, zone: Seq<char>)
    ensures
        reverse_zone(x) == Some(zone) ==> zone_records(Seq::<Seq<char>>::empty().push(x), zone) == x + "\n"@,
        reverse_zone(x) != Some(zone) ==> zone_records(Seq::<Seq<char>>::empty().push(x), zone) == Seq::<char>::empty(),
{
    reveal_with_fuel(zone_records, 2);
    assert(Seq::<Seq<char>>::empty().push(x).drop_last() =~= Seq::<Seq<char>>::empty());
    assert(Seq::<char>::empty() + (x + "\n"@) =~= x + "\n"@);
}

/// There is a file for the leases where they are registered and known, and one
/// for each network, named after its zone and holding its records.
pub proof fn files_of_the_zones(c: ResolverView, hosts: Seq<HostOverride>, leases: Option<Seq<Lease>>, serial: nat,
    i: int)
    ensures
        ({
            let f = zone_files(c, hosts, leases, serial);
            let p = all_ptrs(c, hosts, leases);
            let own: int = if c.register_dhcp && leases is Some {
                1
            } else {
                0
            };
            &&& f.len() == own + reverse_zones(p).len()
            &&& own == 1 ==> f[0].0 == "dhcp."@ + lease_domain(c) + ".zone"@
                && f[0].1 == lease_zone(lease_domain(c), leases->0, serial)
            &&& 0 <= i < reverse_zones(p).len() ==> f[own + i].0 == reverse_zones(p)[i] + ".zone"@ && has_suffix(
                f[own + i].1,
                zone_records(p, reverse_zones(p)[i]),
            ) && has_text(
                f[own + i].1,
                "$TTL 300\n$ORIGIN "@ + reverse_zones(p)[i] + ".\n@ IN SOA ns1.aifw.local. admin.aifw.local. "@
                    + dec(serial),
            )
            &&& leases is Some && c.register_dhcp ==> p == host_ptrs(hosts) + lease_ptrs(leases->0, lease_domain(c))
            &&& leases is None || !c.register_dhcp ==> p == host_ptrs(hosts)
        }),
{
    let p = all_ptrs(c, hosts, leases);
    if 0 <= i < reverse_zones(p).len() {
        let z = reverse_zones(p)[i];
        let f = reverse_file(p, z, serial).1;
        let top = "$TTL 300\n$ORIGIN "@ + z + ".\n@ IN SOA ns1.aifw.local. admin.aifw.local. "@ + dec(serial);
        let mid = " 3600 900 604800 300\n  IN NS  ns1.aifw.local.\n"@;
        let e = Seq::<char>::empty();
        assert(f == top + mid + zone_records(p, z));
        assert(f.skip(f.len() - zone_records(p, z).len()) =~= zone_records(p, z));
        text_is_within(e, top, mid + zone_records(p, z));
        assert(e + top + (mid + zone_records(p, z)) =~= f);
    }
}

// ---------------------------------------------------------------------------
// Policies
// ---------------------------------------------------------------------------

/// The hosts are taken one after the other.
pub proof fn rewrites_in_order(a: Seq<HostOverride>, b: Seq<HostOverride>)
    ensures
        host_rewrites(Seq::<HostOverride>::empty()) == Seq::<char>::empty(),
        host_rewrites(a + b) == host_rewrites(a) + host_rewrites(b),
    decreases b.len(),
{
    if b.len() == 0 {
        assert(a + b =~= a);
        assert(host_rewrites(a) + host_rewrites(b) =~= host_rewrites(a));
    } else {
        assert((a + b).drop_last() =~= a + b.drop_last());
        rewrites_in_order(a, b.drop_last());
        assert(host_rewrites(a + b) =~= host_rewrites(a) + host_rewrites(b));
    }
}

/// A host that is switched on is answered with its value, by the kind of its
/// record; other kinds are not rewritten.
pub proof fn host_is_rewritten(x: HostOverride)
    ensures
        x.enabled && x.record_type@ == "A"@
            ==> host_rewrites(Seq::<HostOverride>::empty().push(x)) == fqdn(x) + " A "@ + x.value@ + "\n"@,
        x.enabled && x.record_type@ == "AAAA"@
            ==> host_rewrites(Seq::<HostOverride>::empty().push(x)) == fqdn(x) + " AAAA "@ + x.value@ + "\n"@,
        x.enabled && x.record_type@ == "CNAME"@
            ==> host_rewrites(Seq::<HostOverride>::empty().push(x)) == fqdn(x) + " CNAME "@ + x.value@ + "\n"@,
        !x.enabled || (x.record_type@ != "A"@ && x.record_type@ != "AAAA"@ && x.record_type@ != "CNAME"@)
            ==> host_rewrites(Seq::<HostOverride>::empty().push(x)) == Seq::<char>::empty(),
{
    reveal_with_fuel(host_rewrites, 2);
    assert(Seq::<HostOverride>::empty().push(x).drop_last() =~= Seq::<HostOverride>::empty());
    lemma_kinds_differ();
    assert(Seq::<char>::empty() + host_rewrite(x) =~= host_rewrite(x));
}

/// There is a policy for the hosts exactly where one is switched on, and it
/// holds their records.
pub proof fn policy_of_the_hosts(hs: Seq<HostOverride>, serial: nat)
    ensures
        hosts_rpz(hs, serial) is Some <==> exists|i: int| 0 <= i < hs.len() && (#[trigger] hs[i]).enabled,
        hosts_rpz(hs, serial) is Some ==> has_suffix(hosts_rpz(hs, serial)->0, host_rewrites(hs)) && has_text(
            hosts_rpz(hs, serial)->0,
            "$TTL 60\n@ IN SOA localhost. admin.localhost. "@ + dec(serial)
                + " 3600 900 604800 60\n  IN NS  localhost.\n"@,
        ),
{
    if hosts_rpz(hs, serial) is Some {
        let top = "$TTL 60\n@ IN SOA localhost. admin.localhost. "@ + dec(serial)
            + " 3600 900 604800 60\n  IN NS  localhost.\n"@;
        let z = hosts_rpz(hs, serial)->0;
        let e = Seq::<char>::empty();
        assert(z.skip(z.len() - host_rewrites(hs).len()) =~= host_rewrites(hs));
        text_is_within(e, top, host_rewrites(hs));
        assert(e + top + host_rewrites(hs) =~= z);
    }
}

/// A listed domain is answered as not existing, or with the address that is
/// given for it where it is redirected; it is never let through.
pub proof fn listed_domains_are_blocked(c: ResolverView, d: Seq<char>)
    ensures
        c.blocklist_action != "redirect"@ ==> block_line(c, d) == d + " CNAME .\n"@,
        c.blocklist_action == "redirect"@ && c.blocklist_redirect_ip is Some ==> block_line(c, d) == d + " A "@
            + c.blocklist_redirect_ip->0 + "\n"@,
        c.blocklist_action == "redirect"@ && c.blocklist_redirect_ip is None
            ==> block_line(c, d) == d + " A "@ + "0.0.0.0"@
            + "\n"@,
        c.blocklist_action != "redirect"@ ==> !has_suffix(block_line(c, d), " rpz-passthru.\n"@),
{
    reveal_strlit(" CNAME .\n");
    reveal_strlit(" rpz-passthru.\n");
    if c.blocklist_action != "redirect"@ {
        let l = d + " CNAME .\n"@;
        let p = " rpz-passthru.\n"@;
        if has_suffix(l, p) {
            assert(l.skip(l.len() - p.len())[12] == l[l.len() - 3]);
            assert(l[l.len() - 3] == ' ');
            assert(p[12] == 'u');
        }
    }
}

/// The lines of a list are taken one after the other.
pub proof fn lines_in_order(c: ResolverView, a: Seq<Seq<char>>, b: Seq<Seq<char>>)
    ensures
        block_lines(c, Seq::<Seq<char>>::empty()) == Seq::<char>::empty(),
        block_lines(c, a + b) == block_lines(c, a) + block_lines(c, b),
    decreases b.len(),
{
    if b.len() == 0 {
        assert(a + b =~= a);
        assert(block_lines(c, a) + block_lines(c, b) =~= block_lines(c, a));
    } else {
        assert((a + b).drop_last() =~= a + b.drop_last());
        lines_in_order(c, a, b.drop_last());
        assert(block_lines(c, a + b) =~= block_lines(c, a) + block_lines(c, b));
    }
}

/// So are the lists.
pub proof fn lists_in_order(c: ResolverView, a: Seq<Seq<char>>, b: Seq<Seq<char>>)
    ensures
        all_block_lines(c, Seq::<Seq<char>>::empty()) == Seq::<char>::empty(),
        all_block_lines(c, a + b) == all_block_lines(c, a) + all_block_lines(c, b),
    decreases b.len(),
{
    if b.len() == 0 {
        assert(a + b =~= a);
        assert(all_block_lines(c, a) + all_block_lines(c, b) =~= all_block_lines(c, a));
    } else {
        assert((a + b).drop_last() =~= a + b.drop_last());
        lists_in_order(c, a, b.drop_last());
        assert(all_block_lines(c, a + b) =~= all_block_lines(c, a) + all_block_lines(c, b));
    }
}

/// A line that names a domain blocks it; any other line does nothing. A list
/// blocks what its lines block.
pub proof fn line_blocks_its_domain(c: ResolverView, x: Seq<char>)
    ensures
        blocked_domain(x) is Some ==> block_lines(c, Seq::<Seq<char>>::empty().push(x)) == block_line(c,
            blocked_domain(x)->0),
        blocked_domain(x) is None ==> block_lines(c, Seq::<Seq<char>>::empty().push(x)) == Seq::<char>::empty(),
        all_block_lines(c, Seq::<Seq<char>>::empty().push(x)) == block_lines(c, lines(x)),
{
    reveal_with_fuel(block_lines, 2);
    assert(Seq::<Seq<char>>::empty().push(x).drop_last() =~= Seq::<Seq<char>>::empty());
    reveal_with_fuel(all_block_lines, 2);
    if blocked_domain(x) is Some {
        let l = block_line(c, blocked_domain(x)->0);
        assert(Seq::<char>::empty() + l =~= l);
    }
    assert(Seq::<char>::empty() + block_lines(c, lines(x)) =~= block_lines(c, lines(x)));
}

/// The names that are let through are taken one after the other.
pub proof fn passes_in_order(a: Seq<Seq<char>>, b: Seq<Seq<char>>)
    ensures
        pass_lines(Seq::<Seq<char>>::empty()) == Seq::<char>::empty(),
        pass_lines(a + b) == pass_lines(a) + pass_lines(b),
    decreases b.len(),
{
    if b.len() == 0 {
        assert(a + b =~= a);
        assert(pass_lines(a) + pass_lines(b) =~= pass_lines(a));
    } else {
        assert((a + b).drop_last() =~= a + b.drop_last());
        passes_in_order(a, b.drop_last());
        assert(pass_lines(a + b) =~= pass_lines(a) + pass_lines(b));
    }
}

/// A name is let through without the dots at its end; an empty one is not.
pub proof fn name_is_let_through(x: Seq<char>)
    ensures
        trim_end_of(trim(x), '.').len() > 0
            ==> pass_lines(Seq::<Seq<char>>::empty().push(x)) == trim_end_of(trim(x), '.') + " CNAME rpz-passthru.\n"@,
        trim_end_of(trim(x), '.').len() == 0 ==> pass_lines(Seq::<Seq<char>>::empty().push(x)) == Seq::<char>::empty(),
{
    reveal_with_fuel(pass_lines, 2);
    assert(Seq::<Seq<char>>::empty().push(x).drop_last() =~= Seq::<Seq<char>>::empty());
    let d = trim_end_of(trim(x), '.');
    assert(Seq::<char>::empty() + (d + " CNAME rpz-passthru.\n"@) =~= d + " CNAME rpz-passthru.\n"@);
}

/// Comments and empty lines name no domain. A line names its first word, or its
/// second where it starts with an address that hosts files block by; without
/// the dots at its end, and never this machine.
pub proof fn domain_of_a_line(line: Seq<char>, d: Seq<char>)
    ensures
        trim(line).len() == 0 || trim(line)[0] == '#' || trim(line)[0] == '!' ==> blocked_domain(line) is None,
        blocked_domain(line) != Some("localhost"@),
        blocked_domain(line) != Some("local"@),
        blocked_domain(line) != Some(Seq::<char>::empty()),
        ({
            let l = trim(line);
            let w = words(l);
            let hosts_file = has_prefix(l, "0.0.0.0"@) || has_prefix(l, "127.0.0.1"@);
            let named = l.len() > 0 && l[0] != '#' && l[0] != '!';
            let d = if hosts_file && w.len() > 1 {
                trim_end_of(trim(w[1]), '.')
            } else {
                trim_end_of(trim(w[0]), '.')
            };
            &&& named && hosts_file && w.len() <= 1 ==> blocked_domain(line) is None
            &&& named && w.len() > 0 && (!hosts_file || w.len() > 1) && d.len() > 0 && d != "localhost"@
                && d != "local"@
                ==> blocked_domain(line) == Some(d)
        }),
{
}

/// There is a policy of the lists exactly where blocking is on and there are
/// lists. What is let through stands before what is blocked.
pub proof fn policy_of_the_lists(c: ResolverView, bodies: Seq<Seq<char>>, serial: nat)
    ensures
        blocklist_rpz(c, bodies, serial) is Some <==> c.blocklists_enabled && c.blocklist_urls.len() > 0,
        blocklist_rpz(c, bodies, serial) is Some ==> has_suffix(
            blocklist_rpz(c, bodies, serial)->0,
            pass_lines(c.whitelist) + all_block_lines(c, bodies),
        ) && has_text(
            blocklist_rpz(c, bodies, serial)->0,
            "$TTL 300\n@ IN SOA localhost. admin.localhost. "@ + dec(serial)
                + " 3600 900 604800 300\n  IN NS  localhost.\n"@,
        ),
{
    if blocklist_rpz(c, bodies, serial) is Some {
        let top = "$TTL 300\n@ IN SOA localhost. admin.localhost. "@ + dec(serial)
            + " 3600 900 604800 300\n  IN NS  localhost.\n"@;
        let z = blocklist_rpz(c, bodies, serial)->0;
        let rest = pass_lines(c.whitelist) + all_block_lines(c, bodies);
        let e = Seq::<char>::empty();
        assert(z =~= top + rest);
        assert(z.skip(z.len() - rest.len()) =~= rest);
        text_is_within(e, top, rest);
        assert(e + top + rest =~= z);
    }
}

/// The lists that are downloaded are those of the settings, without empty ones;
/// none where blocking is off.
pub proof fn lists_are_downloaded(c: ResolverView, a: Seq<Seq<char>>, b: Seq<Seq<char>>, x: Seq<char>)
    ensures
        !c.blocklists_enabled ==> downloads(c) == Seq::<Seq<char>>::empty(),
        c.blocklists_enabled && c.blocklist_urls == a + b ==> downloads(c) == trimmed_pieces(a) + trimmed_pieces(b),
        trim(x).len() > 0 ==> trimmed_pieces(Seq::<Seq<char>>::empty().push(x))
            == Seq::<Seq<char>>::empty().push(trim(x)),
        trim(x).len() == 0 ==> trimmed_pieces(Seq::<Seq<char>>::empty().push(x)) == Seq::<Seq<char>>::empty(),
{
    reveal_with_fuel(trimmed_pieces, 2);
    assert(Seq::<Seq<char>>::empty().push(x).drop_last() =~= Seq::<Seq<char>>::empty());
    lemma_pieces_append(a, b);
}

proof fn lemma_pieces_append(a: Seq<Seq<char>>, b: Seq<Seq<char>>)
    ensures
        trimmed_pieces(a + b) == trimmed_pieces(a) + trimmed_pieces(b),
    decreases b.len(),
{
    if b.len() == 0 {
        assert(a + b =~= a);
        assert(trimmed_pieces(a) + trimmed_pieces(b) =~= trimmed_pieces(a));
    } else {
        assert((a + b).drop_last() =~= a + b.drop_last());
        lemma_pieces_append(a, b.drop_last());
        assert(trimmed_pieces(a + b) =~= trimmed_pieces(a) + trimmed_pieces(b));
    }
}

} // verus!
