//! What the status page shows of the resolver.

use vstd::prelude::*;
use vstd::string::*;

use crate::kv::option_view;
use crate::number::{parse_u64, parsed};
use crate::text::{
    has_prefix, join, lines, lines_of, same, split, split_of_join, split_text, starts_with, trim, trimmed, views,
};

verus! {

/// The state of the resolver.
#[derive(Clone, Debug)]
pub struct ResolverStatus {
    pub running: bool,
    pub version: String,
    pub total_hosts: usize,
    pub total_domains: usize,
    pub total_acls: usize,
    pub cache_hits: u64,
    pub cache_misses: u64,
    pub queries_total: u64,
    /// Which backend answers on port 53.
    pub backend: String,
    pub listening_udp: bool,
    pub listening_tcp: bool,
    pub last_switch_at: Option<String>,
    pub last_switch_result: Option<String>,
    pub probe_enabled: bool,
}

/// What was read from the system and the database for a [`ResolverStatus`].
#[derive(Clone, Debug)]
pub struct StatusReadings {
    /// The backend that the settings ask for.
    pub configured: String,
    pub running: bool,
    /// What the backend answered when asked for its version.
    pub version: Option<String>,
    pub hosts: usize,
    pub domains: usize,
    pub acls: usize,
    pub hits: u64,
    pub misses: u64,
    pub queries: u64,
    /// The results of the UDP and TCP probes; of no meaning where probing is off.
    pub probed_udp: bool,
    pub probed_tcp: bool,
    pub probe_enabled: bool,
    pub last_applied: Option<String>,
    pub last_switch_at: Option<String>,
    pub last_switch_result: Option<String>,
}

/// The version to show: the trimmed answer of `rdns`, or the first line that
/// `unbound` printed; the program's name where that is empty.
pub open spec fn shown_version(rdns: bool, answer: Option<Seq<char>>) -> Seq<char> {
    let text = match answer {
        Some(t) => if rdns {
            trim(t)
        } else if lines(t).len() > 0 {
            lines(t)[0]
        } else {
            Seq::<char>::empty()
        },
        None => Seq::<char>::empty(),
    };
    if text.len() > 0 {
        text
    } else if rdns {
        "rDNS"@
    } else {
        "Unbound"@
    }
}

/// The version to show.
pub fn version_text(rdns: bool, answer: Option<String>) -> (r: String)
    ensures
        r@ == shown_version(rdns, option_view(answer)),
{
    let text = match answer {
        Some(t) => if rdns {
            trimmed(t.as_str())
        } else {
            let ls = lines_of(t.as_str());
            assert(views(ls@).len() == ls@.len());
            if ls.len() > 0 {
                ls[0].clone()
            } else {
                String::new()
            }
        },
        None => String::new(),
    };
    if !text.as_str().is_empty() {
        text
    } else if rdns {
        "rDNS".to_owned()
    } else {
        "Unbound".to_owned()
    }
}

/// The last number that a line `key = number` of `ls` gives for `key`: zero
/// where there is none or it is no number.
pub open spec fn rdns_counter(ls: Seq<Seq<char>>, key: Seq<char>) -> nat
    decreases ls.len(),
{
    if ls.len() == 0 {
        0
    } else {
        let p = split(ls.last(), '=');
        if p.len() == 2 && trim(p[0]) == key {
            match parsed(trim(p[1]), u64::MAX as nat) {
                Some(n) => n,
                None => 0,
            }
        } else {
            rdns_counter(ls.drop_last(), key)
        }
    }
}

/// The last number that a line of `ls` gives behind `prefix`, which ends in
/// an equals sign: zero where there is none or it is no number.
pub open spec fn unbound_counter(ls: Seq<Seq<char>>, prefix: Seq<char>) -> nat
    decreases ls.len(),
{
    if ls.len() == 0 {
        0
    } else if has_prefix(ls.last(), prefix) {
        let p = split(ls.last(), '=');
        if p.len() >= 2 {
            match parsed(p[1], u64::MAX as nat) {
                Some(n) => n,
                None => 0,
            }
        } else {
            0
        }
    } else {
        unbound_counter(ls.drop_last(), prefix)
    }
}

fn rdns_value(ls: &Vec<String>, key: &str) -> (r: u64)
    ensures
        r == rdns_counter(views(ls@), key@),
{
    let ghost all = views(ls@);
    let mut i: usize = ls.len();
    assert(all.take(i as int) =~= all);
    while i > 0
        invariant
            i <= ls@.len(),
            all == views(ls@),
            rdns_counter(all, key@) == rdns_counter(all.take(i as int), key@),
        decreases i,
    {
        assert(all.take(i as int).drop_last() =~= all.take(i - 1));
        assert(all.take(i as int).last() == ls@[i - 1]@);
        let p = split_text(ls[i - 1].as_str(), '=');
        assert(views(p@).len() == p@.len());
        if p.len() == 2 {
            let k = trimmed(p[0].as_str());
            if same(k.as_str(), key) {
                let v = trimmed(p[1].as_str());
                return match parse_u64(v.as_str()) {
                    Some(n) => n,
                    None => 0,
                };
            }
        }
        i = i - 1;
    }
    0
}

fn unbound_value(ls: &Vec<String>, prefix: &str) -> (r: u64)
    ensures
        r == unbound_counter(views(ls@), prefix@),
{
    let ghost all = views(ls@);
    let mut i: usize = ls.len();
    assert(all.take(i as int) =~= all);
    while i > 0
        invariant
            i <= ls@.len(),
            all == views(ls@),
            unbound_counter(all, prefix@) == unbound_counter(all.take(i as int), prefix@),
        decreases i,
    {
        assert(all.take(i as int).drop_last() =~= all.take(i - 1));
        assert(all.take(i as int).last() == ls@[i - 1]@);
        if starts_with(ls[i - 1].as_str(), prefix) {
            let p = split_text(ls[i - 1].as_str(), '=');
            assert(views(p@).len() == p@.len());
            if p.len() < 2 {
                return 0;
            }
            return match parse_u64(p[1].as_str()) {
                Some(n) => n,
                None => 0,
            };
        }
        i = i - 1;
    }
    0
}

/// The cache hits and misses that `rdns` reports, and their sum: the queries.
/// There is none where it is too large.
pub fn rdns_stats(text: &str) -> (r: (u64, u64, Option<u64>))
    ensures
        r.0 == rdns_counter(lines(text@), "cache.hits"@),
        r.1 == rdns_counter(lines(text@), "cache.misses"@),
        r.2 == (if r.0 + r.1 <= u64::MAX {
            Some((r.0 + r.1) as u64)
        } else {
            None
        }),
{
    let ls = lines_of(text);
    let hits: u64 = rdns_value(&ls, "cache.hits");
    let misses: u64 = rdns_value(&ls, "cache.misses");
    (hits, misses, hits.checked_add(misses))
}

/// The cache hits, the misses and the queries that `unbound` reports.
pub fn unbound_stats(text: &str) -> (r: (u64, u64, u64))
    ensures
        r.0 == unbound_counter(lines(text@), "total.num.cachehits="@),
        r.1 == unbound_counter(lines(text@), "total.num.cachemiss="@),
        r.2 == unbound_counter(lines(text@), "total.num.queries="@),
{
    let ls = lines_of(text);
    (
        unbound_value(&ls, "total.num.cachehits="),
        unbound_value(&ls, "total.num.cachemiss="),
        unbound_value(&ls, "total.num.queries="),
    )
}

/// Puts the readings together. The backend shown is the one last applied, or
/// the configured one where none was. Without probes the service's own state
/// stands for both transports.
pub fn resolver_status(x: StatusReadings) -> (s: ResolverStatus)
    ensures
        s.running == x.running,
        s.version@ == shown_version(x.configured@ == "rdns"@, option_view(x.version)),
        s.total_hosts == x.hosts,
        s.total_domains == x.domains,
        s.total_acls == x.acls,
        s.cache_hits == x.hits,
        s.cache_misses == x.misses,
        s.queries_total == x.queries,
        s.backend@ == match option_view(x.last_applied) {
            Some(b) => if b.len() > 0 {
                b
            } else {
                x.configured@
            },
            None => x.configured@,
        },
        s.listening_udp == if x.probe_enabled {
            x.probed_udp
        } else {
            x.running
        },
        s.listening_tcp == if x.probe_enabled {
            x.probed_tcp
        } else {
            x.running
        },
        s.last_switch_at == x.last_switch_at,
        s.last_switch_result == x.last_switch_result,
        s.probe_enabled == x.probe_enabled,
{
    let version = version_text(same(x.configured.as_str(), "rdns"), x.version);
    let backend = match x.last_applied {
        Some(b) => if b.as_str().is_empty() {
            x.configured
        } else {
            b
        },
        None => x.configured,
    };
    ResolverStatus {
        running: x.running,
        version,
        total_hosts: x.hosts,
        total_domains: x.domains,
        total_acls: x.acls,
        cache_hits: x.hits,
        cache_misses: x.misses,
        queries_total: x.queries,
        backend,
        listening_udp: if x.probe_enabled {
            x.probed_udp
        } else {
            x.running
        },
        listening_tcp: if x.probe_enabled {
            x.probed_tcp
        } else {
            x.running
        },
        last_switch_at: x.last_switch_at,
        last_switch_result: x.last_switch_result,
        probe_enabled: x.probe_enabled,
    }
}

// ---------------------------------------------------------------------------
// Laws
// ---------------------------------------------------------------------------

/// The version of rDNS is its answer without white space around it, that of Unbound the first
/// line of its answer; without either the name stands for it.
pub proof fn versions_are_shown(t: Seq<char>)
    ensures
        shown_version(true, None) == "rDNS"@,
        shown_version(false, None) == "Unbound"@,
        trim(t).len() > 0 ==> shown_version(true, Some(t)) == trim(t),
        trim(t).len() == 0 ==> shown_version(true, Some(t)) == "rDNS"@,
        lines(t).len() > 0 && lines(t)[0].len() > 0 ==> shown_version(false, Some(t)) == lines(t)[0],
        lines(t).len() == 0 || lines(t)[0].len() == 0 ==> shown_version(false, Some(t)) == "Unbound"@,
{
}

proof fn lemma_halves(k: Seq<char>, n: Seq<char>)
    requires
        !k.contains('='),
        !n.contains('='),
    ensures
        split(k + seq!['='] + n, '=') == seq![k, n],
{
    let l = seq![k, n];
    assert(l.drop_last() =~= seq![k]);
    reveal_with_fuel(join, 2);
    assert(join(l, seq!['=']) == k + seq!['='] + n);
    split_of_join(l, '=');
}

/// A counter of rDNS is the number behind the equals sign on the last line with its key, and
/// zero where no line has it or no number stands there.
pub proof fn last_count_of_rdns_counts(a: Seq<Seq<char>>, line: Seq<char>, k: Seq<char>, n: Seq<char>, key: Seq<char>)
    requires
        !k.contains('='),
        !n.contains('='),
    ensures
        rdns_counter(Seq::<Seq<char>>::empty(), key) == 0,
        trim(k) == key ==> rdns_counter(a.push(k + seq!['='] + n), key) == (match parsed(trim(n),
            u64::MAX as nat) { Some(v) => v, None => 0nat }),
        trim(k) != key ==> rdns_counter(a.push(k + seq!['='] + n), key) == rdns_counter(a, key),
        !line.contains('=') ==> rdns_counter(a.push(line), key) == rdns_counter(a, key),
{
    lemma_halves(k, n);
    assert(a.push(k + seq!['='] + n).drop_last() =~= a);
    assert(a.push(line).drop_last() =~= a);
    if !line.contains('=') {
        split_of_join(seq![line], '=');
        assert(join(seq![line], seq!['=']) == line);
    }
}

/// A counter of Unbound is the number behind the equals sign on the last line that starts with
/// its name, and zero where no line does or no number stands there.
pub proof fn last_count_of_unbound_counts(a: Seq<Seq<char>>, line: Seq<char>, k: Seq<char>, n: Seq<char>,
    prefix: Seq<char>)
    requires
        !k.contains('='),
        !n.contains('='),
    ensures
        unbound_counter(Seq::<Seq<char>>::empty(), prefix) == 0,
        has_prefix(k + seq!['='] + n, prefix)
            ==> unbound_counter(a.push(k + seq!['='] + n), prefix) == (match parsed(n,
            u64::MAX as nat) { Some(v) => v, None => 0nat }),
        !has_prefix(line, prefix) ==> unbound_counter(a.push(line), prefix) == unbound_counter(a, prefix),
{
    lemma_halves(k, n);
    assert(a.push(k + seq!['='] + n).drop_last() =~= a);
    assert(a.push(line).drop_last() =~= a);
}

/// The status holds what was read, each value in its own place. What runs is what was last
/// applied, or else what is configured; it listens where the probe says so, or where it runs if
/// it is not probed.
pub proof fn status_is_what_was_read(x: StatusReadings, s: ResolverStatus)
    requires
        call_ensures(resolver_status, (x,), s),
    ensures
        s.running == x.running,
        s.total_hosts == x.hosts,
        s.total_domains == x.domains,
        s.total_acls == x.acls,
        s.cache_hits == x.hits,
        s.cache_misses == x.misses,
        s.queries_total == x.queries,
        s.last_switch_at == x.last_switch_at,
        s.last_switch_result == x.last_switch_result,
        s.probe_enabled == x.probe_enabled,
        x.probe_enabled ==> s.listening_udp == x.probed_udp && s.listening_tcp == x.probed_tcp,
        !x.probe_enabled ==> s.listening_udp == x.running && s.listening_tcp == x.running,
        x.last_applied is None ==> s.backend@ == x.configured@,
        x.last_applied matches Some(b) ==> b@.len() > 0 ==> s.backend@ == b@,
        x.last_applied matches Some(b) ==> b@.len() == 0 ==> s.backend@ == x.configured@,
{
}

/// Hits and misses are read under their own names, and all queries are both together or counted
/// by themselves.
pub proof fn counters_have_their_names(text: &str, r: (u64, u64, Option<u64>), u: (u64, u64, u64))
    ensures
        call_ensures(rdns_stats, (text,), r) ==> r.0 == rdns_counter(lines(text@), "cache.hits"@)
            && r.1 == rdns_counter(lines(text@), "cache.misses"@),
        call_ensures(rdns_stats, (text,), r) && r.0 + r.1 <= u64::MAX ==> r.2 is Some && r.2->0 == r.0 + r.1,
        call_ensures(unbound_stats, (text,), u) ==> u.0 == unbound_counter(lines(text@), "total.num.cachehits="@)
            && u.1 == unbound_counter(lines(text@), "total.num.cachemiss="@)
            && u.2 == unbound_counter(lines(text@), "total.num.queries="@),
{
}

} // verus!
