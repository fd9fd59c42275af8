//! What the server decides for itself.

use vstd::prelude::*;
use vstd::string::*;

use crate::auth::cookies::{header_accepts, header_str, header_text, header_values};
use crate::json::{json_read, texts_of_json};
use crate::kv::{items, items_of, put, rows, KeyValue};
use crate::number::{dec, fmt_u64, parse_u64, parsed};
use crate::status::Status;
use crate::text::{
    cat2, cat3, chars_of, contains_char, ends_with, has_prefix, has_suffix, join, join_text, lines, lines_of, lowercase,
    lowercase_text, push_line, same, split, split_text, starts_with, strip_prefix, trim, trimmed, views, words,
    words_of,
};

verus! {

// ---------------------------------------------------------------------------
// Pending changes
// ---------------------------------------------------------------------------

/// What was changed and has not been applied yet.
#[derive(Clone, Copy, Debug, PartialEq, Eq, Structural)]
pub struct PendingChanges {
    pub firewall: bool,
    pub nat: bool,
    pub dns: bool,
}

/// A part of the configuration that is applied by itself.
#[derive(Clone, Copy, Debug, PartialEq, Eq, Structural)]
pub enum Part {
    Firewall,
    Nat,
    Dns,
}

impl Default for PendingChanges {
    /// Nothing is pending.
    fn default() -> (r: PendingChanges)
        ensures
            !r.firewall && !r.nat && !r.dns,
    {
        PendingChanges { firewall: false, nat: false, dns: false }
    }
}

impl PendingChanges {
    /// A part has changes pending.
    pub open spec fn of(self, part: Part) -> bool {
        match part {
            Part::Firewall => self.firewall,
            Part::Nat => self.nat,
            Part::Dns => self.dns,
        }
    }

    /// Notes whether a part has changes pending, and returns what is sent to
    /// those who watch: everything that is pending now.
    pub fn set_pending(&mut self, part: Part, value: bool) -> (told: PendingChanges)
        ensures
            final(self).of(part) == value,
            forall|other: Part| other != part ==> final(self).of(other) == #[trigger] old(self).of(other),
            told == *final(self),
    {
        match part {
            Part::Firewall => {
                self.firewall = value;
            },
            Part::Nat => {
                self.nat = value;
            },
            Part::Dns => {
                self.dns = value;
            },
        }
        *self
    }
}

// ---------------------------------------------------------------------------
// The snapshot for the cluster
// ---------------------------------------------------------------------------

/// How long a snapshot is served again, in nanoseconds.
pub const SNAPSHOT_MAX_AGE: u64 = 60_000_000_000;

/// The snapshot that was built last.
#[derive(Clone, Debug)]
pub struct ClusterSnapshotCache {
    pub generation: u64,
    /// When it was built, in nanoseconds.
    pub built_at: u64,
    pub json: String,
    pub hash: String,
}

/// The snapshot is of this generation and not too old.
pub open spec fn is_usable(c: ClusterSnapshotCache, generation: u64, now: u64) -> bool {
    c.generation == generation && now - c.built_at < SNAPSHOT_MAX_AGE
}

/// The snapshot and its hash, where the last one can be served again: nothing
/// has been changed since, and it is less than a minute old.
pub fn cluster_snapshot_data(cache: &Option<ClusterSnapshotCache>, generation: u64, now: u64) -> (r: Option<(String, String)>)
    ensures
        r == (match *cache {
            Some(c) => if is_usable(c, generation, now) {
                Some((c.json, c.hash))
            } else {
                None
            },
            None => None,
        }),
{
    match cache {
        Some(c) => {
            let age: u64 = if now > c.built_at {
                now - c.built_at
            } else {
                0
            };
            if c.generation == generation && age < SNAPSHOT_MAX_AGE {
                Some((c.json.clone(), c.hash.clone()))
            } else {
                None
            }
        },
        None => None,
    }
}

/// Keeps a snapshot that was just built.
pub fn keep_snapshot(cache: &mut Option<ClusterSnapshotCache>, generation: u64, now: u64, json: &str, hash: &str)
    ensures
        *final(cache) matches Some(c) && c.generation == generation && c.built_at == now && c.json@ == json@ && c.hash@
            == hash@,
{
    *cache = Some(ClusterSnapshotCache { generation, built_at: now, json: json.to_owned(), hash: hash.to_owned() });
}

/// Why there is no snapshot: its export ended with a status.
pub fn export_failed(s: Status) -> (r: String)
    ensures
        r@ == "export: "@ + dec(s.number() as nat),
{
    let code = s.code();
    let number = fmt_u64(code as u64);
    cat2("export: ", number.as_str())
}

/// A snapshot is served again for as long as nothing is changed and it is
/// less than a minute old, and not any longer.
pub proof fn snapshot_is_served_again(c: ClusterSnapshotCache, generation: u64, now: u64)
    requires
        c.built_at <= now,
    ensures
        is_usable(c, generation, now) <==> c.generation == generation && now < c.built_at + SNAPSHOT_MAX_AGE,
{
}

// ---------------------------------------------------------------------------
// Origins
// ---------------------------------------------------------------------------

/// The origin is on the list, in whatever case.
pub open spec fn is_listed(list: Seq<Seq<char>>, o: Seq<char>) -> bool {
    exists|i: int| 0 <= i < list.len() && lowercase(#[trigger] list[i]) == lowercase(o)
}

/// The origin may open a stream: a client that names none may, and so may any
/// where there is no list; else it has to be on the list, in whatever case.
pub open spec fn is_allowed(origin: Option<Seq<char>>, allowed: Option<Seq<Seq<char>>>) -> bool {
    match origin {
        None => true,
        Some(o) => match allowed {
            None => true,
            Some(list) => is_listed(list, o),
        },
    }
}

/// Whether an origin may open a stream.
pub fn origin_allowed(origin: Option<&str>, allowed: &Option<Vec<String>>) -> (r: bool)
    ensures
        r == is_allowed(
            match origin {
                Some(o) => Some(o@),
                None => None,
            },
            crate::kv::option_views(*allowed),
        ),
{
    match origin {
        None => true,
        Some(o) => match allowed {
            None => true,
            Some(list) => on_list(list, o),
        },
    }
}

fn on_list(list: &Vec<String>, o: &str) -> (r: bool)
    ensures
        r == is_listed(views(list@), o@),
{
    let wanted = lowercase_text(o);
    let mut i: usize = 0;
    while i < list.len()
        invariant
            i <= list@.len(),
            wanted@ == lowercase(o@),
            forall|k: int| 0 <= k < i ==> lowercase((#[trigger] views(list@)[k])) != lowercase(o@),
        decreases list.len() - i,
    {
        let one = lowercase_text(list[i].as_str());
        if same(one.as_str(), wanted.as_str()) {
            assert(views(list@).len() == list@.len());
            assert(lowercase(views(list@)[i as int]) == lowercase(o@));
            return true;
        }
        i = i + 1;
    }
    false
}

/// The origins that may open a stream, out of the setting: every one for `*`.
pub open spec fn stream_origins_of(setting: Seq<char>) -> Option<Seq<Seq<char>>> {
    if setting == "*"@ {
        None
    } else {
        Some(items(setting, ','))
    }
}

/// The origins that may open a stream.
pub fn stream_origins(setting: &str) -> (r: Option<Vec<String>>)
    ensures
        crate::kv::option_views(r) == stream_origins_of(setting@),
{
    if same(setting, "*") {
        None
    } else {
        Some(items_of(setting, ','))
    }
}

/// Turns away a stream that is opened from an origin that may not. `origin`
/// is the header of the request; one that is no text counts as none.
pub fn guard_origin(origin: Option<&[u8]>, allowed: &Option<Vec<String>>) -> (r: Result<(), Status>)
    ensures
        r is Ok <==> is_allowed(
            match origin {
                Some(b) => header_text(b@),
                None => None,
            },
            crate::kv::option_views(*allowed),
        ),
        r matches Err(s) ==> s == Status::Forbidden,
{
    let text = match origin {
        Some(b) => header_str(b),
        None => None,
    };
    let ok = match &text {
        Some(t) => origin_allowed(Some(t.as_str()), allowed),
        None => origin_allowed(None, allowed),
    };
    if ok {
        Ok(())
    } else {
        Err(Status::Forbidden)
    }
}

/// The pieces without surrounding white space.
pub open spec fn trims(p: Seq<Seq<char>>) -> Seq<Seq<char>> {
    p.map_values(|s: Seq<char>| trim(s))
}

/// The origins that get to read answers, out of the setting: every one for
/// `*`, else those that can stand in a header.
pub open spec fn cors_origins_of(setting: Seq<char>) -> Option<Seq<Seq<char>>> {
    if setting == "*"@ {
        None
    } else {
        Some(header_values(trims(split(setting, ','))))
    }
}

/// The origins that get to read answers.
pub fn cors_origins(setting: &str) -> (r: Option<Vec<String>>)
    ensures
        crate::kv::option_views(r) == cors_origins_of(setting@),
{
    if same(setting, "*") {
        return None;
    }
    let pieces = split_text(setting, ',');
    let ghost all = trims(views(pieces@));
    let mut kept: Vec<String> = Vec::new();
    let mut i: usize = 0;
    assert(views(kept@) =~= header_values(all.take(0)));
    while i < pieces.len()
        invariant
            i <= pieces@.len(),
            all == trims(views(pieces@)),
            views(kept@) == header_values(all.take(i as int)),
        decreases pieces.len() - i,
    {
        assert(all.take(i + 1).drop_last() =~= all.take(i as int));
        let t = trimmed(pieces[i].as_str());
        if header_accepts(t.as_str()) {
            push_line(&mut kept, t);
        }
        i = i + 1;
    }
    assert(all.take(pieces@.len() as int) =~= all);
    Some(kept)
}

// ---------------------------------------------------------------------------
// Headers of answers
// ---------------------------------------------------------------------------

/// A page of the user interface, as opposed to a file that it loads.
pub open spec fn is_page(path: Seq<char>) -> bool {
    path == "/"@ || path == "/index.html"@ || has_suffix(path, "/index.html"@) || (!path.contains('.') && !has_prefix(
        path,
        "/api/"@,
    ))
}

/// How long a file of the user interface may be kept: for ever where its name
/// changes with its contents, not at all where it is a page, else an hour.
pub open spec fn cache_policy(path: Seq<char>) -> Seq<char> {
    if has_prefix(path, "/_next/static/"@) {
        "public, max-age=31536000, immutable"@
    } else if is_page(path) {
        "no-cache, must-revalidate"@
    } else {
        "public, max-age=3600"@
    }
}

/// The `Cache-Control` header for a path of the user interface.
pub fn ui_cache_headers(path: &str) -> (r: &'static str)
    ensures
        r@ == cache_policy(path@),
{
    if starts_with(path, "/_next/static/") {
        "public, max-age=31536000, immutable"
    } else if same(path, "/") || same(path, "/index.html") || ends_with(path, "/index.html") || (!contains_char(path, '.')
        && !starts_with(path, "/api/")) {
        "no-cache, must-revalidate"
    } else {
        "public, max-age=3600"
    }
}

/// The `Strict-Transport-Security` header: only where answers are encrypted.
pub fn transport_security(tls_enabled: bool) -> (r: Option<&'static str>)
    ensures
        tls_enabled ==> (r matches Some(t) && t@ == "max-age=31536000; includeSubDomains"@),
        !tls_enabled ==> r is None,
{
    if tls_enabled {
        Some("max-age=31536000; includeSubDomains")
    } else {
        None
    }
}

// ---------------------------------------------------------------------------
// Start
// ---------------------------------------------------------------------------

/// How many seconds of history are kept by default.
pub const METRICS_HISTORY_SIZE_DEFAULT: u64 = 1800;

/// How many seconds of history are kept at most: a day.
pub const HISTORY_SECONDS_HARD_MAX: u64 = 86_400;

/// How many seconds of history are configured.
pub open spec fn history_setting(setting: Option<Seq<char>>) -> nat {
    match setting {
        Some(t) => match parsed(t, u64::MAX as nat) {
            Some(n) => n,
            None => METRICS_HISTORY_SIZE_DEFAULT as nat,
        },
        None => METRICS_HISTORY_SIZE_DEFAULT as nat,
    }
}

/// How many seconds of history are kept, and whether that is less than what
/// is configured.
pub fn history_max(setting: Option<&str>) -> (r: (u64, bool))
    ensures
        ({
            let raw = history_setting(
                match setting {
                    Some(t) => Some(t@),
                    None => None,
                },
            );
            r.1 == (raw > HISTORY_SECONDS_HARD_MAX) && r.0 == (if r.1 {
                HISTORY_SECONDS_HARD_MAX as nat
            } else {
                raw
            })
        }),
{
    let raw: u64 = match setting {
        Some(t) => match parse_u64(t) {
            Some(n) => n,
            None => METRICS_HISTORY_SIZE_DEFAULT,
        },
        None => METRICS_HISTORY_SIZE_DEFAULT,
    };
    if raw > HISTORY_SECONDS_HARD_MAX {
        (HISTORY_SECONDS_HARD_MAX, true)
    } else {
        (raw, false)
    }
}

/// Whether this node is part of a cluster, out of what `sysrc` prints.
pub fn cluster_enabled(printed: Option<&str>) -> (r: bool)
    ensures
        r == (printed matches Some(t) && trim(t@) == "YES"@),
{
    match printed {
        Some(t) => {
            let word = trimmed(t);
            same(word.as_str(), "YES")
        },
        None => false,
    }
}

/// Whether the server may start: without encryption it serves this machine
/// only, unless it was told otherwise. `addr` is where it listens. Where it
/// may start, the answer says whether to warn that credentials are not
/// protected.
pub fn plaintext_check(no_tls: bool, is_loopback: bool, allow_plaintext_external: bool, addr: &str) -> (r: Result<bool, String>)
    ensures
        match r {
            Ok(warn) => (!no_tls || is_loopback || allow_plaintext_external) && warn == (no_tls && !is_loopback),
            Err(e) => no_tls && !is_loopback && !allow_plaintext_external && e@ == "refusing to bind "@ + addr@
                + " without TLS; pass --allow-plaintext-external to override"@,
        },
{
    if no_tls && !is_loopback {
        if !allow_plaintext_external {
            return Err(
                cat3("refusing to bind ", addr, " without TLS; pass --allow-plaintext-external to override"),
            );
        }
        return Ok(true);
    }
    Ok(false)
}

/// The forwarders that are still kept where an earlier version kept them: a
/// list, not empty, where none are set in the place of today.
pub open spec fn legacy_servers(legacy: Option<Seq<char>>, current: Option<Seq<char>>) -> Option<Seq<Seq<char>>> {
    match legacy {
        Some(j) => match texts_of_json(j) {
            Some(l) => if l.len() > 0 && (current is None || trim(current->0).len() == 0) {
                Some(l)
            } else {
                None
            },
            None => None,
        },
        None => None,
    }
}

/// The rows that turn the forwarders `l` on.
pub open spec fn forwarder_rows(l: Seq<Seq<char>>) -> Seq<(Seq<char>, Seq<char>)> {
    Seq::<(Seq<char>, Seq<char>)>::empty().push(("forwarding_servers"@, join(l, ","@))).push(
        ("forwarding_enabled"@, "true"@),
    )
}

/// The rows that move the forwarders to the place of today, where that is to
/// be done.
pub fn migrate_forwarders(legacy: Option<&str>, current: Option<&str>) -> (r: Option<Vec<KeyValue>>)
    ensures
        match legacy_servers(
            match legacy {
                Some(j) => Some(j@),
                None => None,
            },
            match current {
                Some(c) => Some(c@),
                None => None,
            },
        ) {
            Some(l) => r matches Some(t) && rows(t@) == forwarder_rows(l),
            None => r is None,
        },
{
    let text = match legacy {
        Some(j) => j,
        None => {
            return None;
        },
    };
    match json_read(text) {
        Some(l) => migrate_servers(&l, current),
        None => None,
    }
}

/// The rows that move the forwarders `l` to the place of today, where that is
/// to be done.
pub fn migrate_servers(l: &Vec<String>, current: Option<&str>) -> (r: Option<Vec<KeyValue>>)
    ensures
        r is Some <==> l@.len() > 0 && (current matches Some(c) ==> trim(c@).len() == 0),
        r matches Some(t) ==> rows(t@) == forwarder_rows(views(l@)),
{
    let unset = match current {
        Some(c) => {
            let t = trimmed(c);
            t.as_str().is_empty()
        },
        None => true,
    };
    if l.len() == 0 || !unset {
        return None;
    }
    let mut t: Vec<KeyValue> = Vec::new();
    assert(rows(t@) =~= Seq::<(Seq<char>, Seq<char>)>::empty());
    let joined = join_text(l, ",");
    put(&mut t, "forwarding_servers", joined.as_str());
    put(&mut t, "forwarding_enabled", "true");
    Some(t)
}

// ---------------------------------------------------------------------------
// Counters
// ---------------------------------------------------------------------------

/// `s` without every `c`.
pub open spec fn without(s: Seq<char>, c: char) -> Seq<char>
    decreases s.len(),
{
    if s.len() == 0 {
        s
    } else if s.last() == c {
        without(s.drop_last(), c)
    } else {
        without(s.drop_last(), c).push(s.last())
    }
}

fn drop_char(s: &str, c: char) -> (r: String)
    ensures
        r@ == without(s@, c),
{
    let v = chars_of(s);
    let mut r = String::new();
    let mut i: usize = 0;
    while i < v.len()
        invariant
            i <= v@.len(),
            v@ == s@,
            r@ == without(v@.take(i as int), c),
        decreases v.len() - i,
    {
        assert(v@.take(i + 1).drop_last() =~= v@.take(i as int));
        if v[i] != c {
            r.push(v[i]);
        }
        i = i + 1;
    }
    assert(v@.take(v@.len() as int) =~= v@);
    r
}

/// The number that a word stands for, without the commas in it: zero where it
/// is none.
pub open spec fn word_number(w: Seq<char>, commas: bool) -> nat {
    match parsed(
        if commas {
            without(w, ',')
        } else {
            w
        },
        u64::MAX as nat,
    ) {
        Some(n) => n,
        None => 0,
    }
}

/// The line starts with the label, and something follows.
pub open spec fn is_labelled(line: Seq<char>, label: Seq<char>) -> bool {
    has_prefix(trim(line), label) && words(trim(line).skip(label.len() as int)).len() > 0
}

/// The number behind the label in the first line that has it: zero where no
/// line has it.
pub open spec fn labelled_number(ls: Seq<Seq<char>>, label: Seq<char>, commas: bool) -> nat
    decreases ls.len(),
{
    if ls.len() == 0 {
        0
    } else if is_labelled(ls[0], label) {
        word_number(words(trim(ls[0]).skip(label.len() as int))[0], commas)
    } else {
        labelled_number(ls.skip(1), label, commas)
    }
}

fn read_labelled(text: &str, label: &str, commas: bool) -> (r: u64)
    ensures
        r == labelled_number(lines(text@), label@, commas),
{
    let ls = lines_of(text);
    let ghost all = views(ls@);
    let mut i: usize = 0;
    assert(all.skip(0) =~= all);
    while i < ls.len()
        invariant
            i <= ls@.len(),
            all == views(ls@),
            all == lines(text@),
            labelled_number(all, label@, commas) == labelled_number(all.skip(i as int), label@, commas),
        decreases ls.len() - i,
    {
        assert(all.skip(i as int).skip(1) =~= all.skip(i + 1));
        assert(all.skip(i as int)[0] == ls@[i as int]@);
        let line = trimmed(ls[i].as_str());
        match strip_prefix(line.as_str(), label) {
            Some(rest) => {
                let w = words_of(rest.as_str());
                assert(views(w@).len() == w@.len());
                if w.len() > 0 {
                    assert(views(w@)[0] == w@[0]@);
                    let word = if commas {
                        drop_char(w[0].as_str(), ',')
                    } else {
                        w[0].clone()
                    };
                    return match parse_u64(word.as_str()) {
                        Some(n) => n,
                        None => 0,
                    };
                }
            },
            None => {},
        }
        i = i + 1;
    }
    0
}

/// The packets that came in and went out, and the states, out of what
/// `ifconfig` prints of the synchronisation and `pfctl` of the state table,
/// where it ran.
pub fn sample_pfsync_metrics(ifconfig: &str, pfctl: Option<&str>) -> (r: (u64, u64, u64))
    ensures
        r.0 == labelled_number(lines(ifconfig@), "input:"@, true),
        r.1 == labelled_number(lines(ifconfig@), "output:"@, true),
        r.2 == (match pfctl {
            Some(t) => labelled_number(lines(t@), "current entries"@, false),
            None => 0,
        }),
{
    let states: u64 = match pfctl {
        Some(t) => read_labelled(t, "current entries", false),
        None => 0,
    };
    (read_labelled(ifconfig, "input:", true), read_labelled(ifconfig, "output:", true), states)
}

// ---------------------------------------------------------------------------
// Laws
// ---------------------------------------------------------------------------

/// The mark of a part is its own.
pub proof fn parts_have_their_marks(p: PendingChanges)
    ensures
        p.of(Part::Firewall) == p.firewall,
        p.of(Part::Nat) == p.nat,
        p.of(Part::Dns) == p.dns,
{
}

/// A snapshot is used where nothing has changed since it was made and less than a minute has
/// passed.
pub proof fn snapshots_age(c: ClusterSnapshotCache, generation: u64, now: u64)
    ensures
        c.generation != generation ==> !is_usable(c, generation, now),
        now - c.built_at >= 60_000_000_000 ==> !is_usable(c, generation, now),
        c.generation == generation && now - c.built_at < 60_000_000_000 ==> is_usable(c, generation, now),
{
}

/// A request without an origin is let through, as is any where no list is set; otherwise its
/// origin stands in the list, in capitals or not.
pub proof fn origins_are_compared_without_case(o: Seq<char>, list: Seq<Seq<char>>, i: int,
    allowed: Option<Seq<Seq<char>>>)
    ensures
        is_allowed(None, allowed),
        is_allowed(Some(o), None),
        0 <= i < list.len() && list[i] == o ==> is_allowed(Some(o), Some(list)),
        0 <= i < list.len() && lowercase(list[i]) == lowercase(o) ==> is_allowed(Some(o), Some(list)),
        (forall|k: int| 0 <= k < list.len() ==> lowercase(#[trigger] list[k]) != lowercase(o))
            ==> !is_allowed(Some(o), Some(list)),
{
}

/// An asterisk allows every origin; otherwise those between the commas are allowed, without
/// the white space around them.
pub proof fn origins_of_the_settings(setting: Seq<char>)
    ensures
        stream_origins_of(seq!['*']) is None,
        cors_origins_of(seq!['*']) is None,
        setting != "*"@ ==> stream_origins_of(setting) == Some(items(setting, ',')),
        setting != "*"@ ==> cors_origins_of(setting) == Some(header_values(split(setting,
            ',').map_values(|s: Seq<char>| trim(s)))),
{
    reveal_strlit("*");
    assert("*"@ =~= seq!['*']);
    assert(trims(split(setting, ',')) =~= split(setting, ',').map_values(|s: Seq<char>| trim(s)));
}

/// What is built under a name of its own is kept for good, a page is asked for anew, and
/// anything else is kept for an hour.
pub proof fn files_are_kept_by_their_kind(path: Seq<char>)
    ensures
        has_prefix(path, "/_next/static/"@) ==> cache_policy(path) == "public, max-age=31536000, immutable"@,
        !has_prefix(path, "/_next/static/"@) && (path == "/"@ || path == "/index.html"@
            || has_suffix(path, "/index.html"@)) ==> cache_policy(path) == "no-cache, must-revalidate"@,
        !has_prefix(path, "/_next/static/"@) && !path.contains('.') && !has_prefix(path, "/api/"@)
            ==> cache_policy(path) == "no-cache, must-revalidate"@,
        !has_prefix(path, "/_next/static/"@) && path.contains('.') && path != "/"@
            && !has_suffix(path, "/index.html"@) && path != "/index.html"@
            ==> cache_policy(path) == "public, max-age=3600"@,
        !has_prefix(path, "/_next/static/"@) && path != "/"@ && !has_suffix(path, "/index.html"@)
            && path != "/index.html"@ && has_prefix(path, "/api/"@) ==> cache_policy(path) == "public, max-age=3600"@,
{
}

/// The length of the history is the number set, and 1800 where none that can be read is.
pub proof fn history_is_read_or_half_an_hour(t: Seq<char>)
    ensures
        history_setting(None) == 1800,
        parsed(t, u64::MAX as nat) is None ==> history_setting(Some(t)) == 1800,
        parsed(t, u64::MAX as nat) matches Some(n) ==> history_setting(Some(t)) == n,
{
}

/// The servers of an earlier version are taken over where there are any and none are set now.
pub proof fn old_servers_move_once(j: Seq<char>, current: Option<Seq<char>>, l: Seq<Seq<char>>, s: Seq<char>)
    ensures
        legacy_servers(None, current) is None,
        texts_of_json(j) is None ==> legacy_servers(Some(j), current) is None,
        texts_of_json(j) == Some(l) && l.len() == 0 ==> legacy_servers(Some(j), current) is None,
        texts_of_json(j) == Some(l) && l.len() > 0 ==> legacy_servers(Some(j), None) == Some(l),
        texts_of_json(j) == Some(l) && l.len() > 0 && trim(s).len() == 0
            ==> legacy_servers(Some(j), Some(s)) == Some(l),
        trim(s).len() > 0 ==> legacy_servers(Some(j), Some(s)) is None,
{
}

/// The servers are stored as one list with commas, and forwarding is switched on.
pub proof fn forwarders_are_stored(l: Seq<Seq<char>>)
    ensures
        forwarder_rows(l) == seq![("forwarding_servers"@, join(l, seq![','])), ("forwarding_enabled"@, "true"@)],
{
    reveal_strlit(",");
    assert(","@ =~= seq![',']);
}

/// A character is left out wherever it stands, and all others stay in order.
pub proof fn characters_are_left_out(a: Seq<char>, b: Seq<char>, c: char)
    ensures
        without(Seq::<char>::empty(), c) == Seq::<char>::empty(),
        without(a + b, c) == without(a, c) + without(b, c),
    decreases b.len(),
{
    if b.len() == 0 {
        assert(a + b =~= a);
        assert(without(a, c) + without(b, c) =~= without(a, c));
    } else {
        assert((a + b).drop_last() =~= a + b.drop_last());
        characters_are_left_out(a, b.drop_last(), c);
        assert(without(a + b, c) =~= without(a, c) + without(b, c));
    }
}

/// The character itself is left out and any other stays.
pub proof fn one_character_is_left_out_or_stays(x: char, c: char)
    ensures
        x == c ==> without(Seq::<char>::empty().push(x), c).len() == 0,
        x != c ==> without(Seq::<char>::empty().push(x), c) == seq![x],
{
    reveal_with_fuel(without, 2);
    assert(Seq::<char>::empty().push(x).drop_last() =~= Seq::<char>::empty());
}

/// A word counts as the number it writes, with commas within it left out where that is asked,
/// and as zero where it writes none.
pub proof fn numbers_of_words(w: Seq<char>)
    ensures
        word_number(w, false) == (match parsed(w, u64::MAX as nat) { Some(n) => n, None => 0nat }),
        word_number(w, true) == word_number(without(w, ','), false),
{
}

/// The number is that of the first line with the label and a word behind it; other lines do
/// not matter, and without one it is zero.
pub proof fn first_labelled_line_counts(a: Seq<Seq<char>>, b: Seq<Seq<char>>, label: Seq<char>, commas: bool,
    line: Seq<char>)
    ensures
        labelled_number(Seq::<Seq<char>>::empty(), label, commas) == 0,
        (forall|k: int| 0 <= k < a.len() ==> !is_labelled(#[trigger] a[k], label))
            ==> labelled_number(a + b, label, commas) == labelled_number(b, label, commas),
        (exists|k: int| 0 <= k < a.len() && is_labelled(#[trigger] a[k], label))
            ==> labelled_number(a + b, label, commas) == labelled_number(a, label, commas),
        has_prefix(trim(line), label) && words(trim(line).skip(label.len() as int)).len() > 0
            ==> labelled_number(seq![line], label,
            commas) == word_number(words(trim(line).skip(label.len() as int))[0], commas),
        !has_prefix(trim(line), label) ==> labelled_number(seq![line], label, commas) == 0,
    decreases a.len(),
{
    reveal_with_fuel(labelled_number, 2);
    assert(seq![line].skip(1) =~= Seq::<Seq<char>>::empty());
    if a.len() == 0 {
        assert(a + b =~= b);
    } else {
        assert((a + b)[0] == a[0]);
        assert((a + b).skip(1) =~= a.skip(1) + b);
        first_labelled_line_counts(a.skip(1), b, label, commas, line);
        if !is_labelled(a[0], label) {
            assert forall|k: int| 0 <= k < a.len() && is_labelled(#[trigger] a[k], label) implies exists|i: int|
                0 <= i < a.skip(1).len() && is_labelled(#[trigger] a.skip(1)[i], label) by {
                assert(a.skip(1)[k - 1] == a[k]);
            }
            if forall|k: int| 0 <= k < a.len() ==> !is_labelled(#[trigger] a[k], label) {
                assert forall|k: int| 0 <= k < a.skip(1).len() implies !is_labelled(#[trigger] a.skip(1)[k], label) by {
                    assert(a.skip(1)[k] == a[k + 1]);
                }
            }
        }
    }
}

/// The history is as long as the setting says, a day at most; that it was cut is told.
pub proof fn history_is_bounded(t: &str, r: (u64, bool))
    ensures
        call_ensures(history_max, (None::<&str>,), r) ==> r == (1800u64, false),
        call_ensures(history_max, (Some(t),), r) ==> r.0 <= 86_400,
        call_ensures(history_max, (Some(t),), r) ==> (parsed(t@, u64::MAX as nat) matches Some(n) ==> (n <= 86_400
            ==> r.0 == n && !r.1) && (n > 86_400 ==> r.0 == 86_400 && r.1)),
{
}

/// Without TLS the server is bound to the loopback only, unless that is allowed expressly; it is
/// then told.
pub proof fn plaintext_stays_inside(no_tls: bool, is_loopback: bool, allowed: bool, addr: &str, r: Result<bool, String>)
    requires
        call_ensures(plaintext_check, (no_tls, is_loopback, allowed, addr), r),
    ensures
        r is Err <==> no_tls && !is_loopback && !allowed,
        r matches Ok(warn) ==> (warn <==> no_tls && !is_loopback),
        r matches Err(e) ==> e@ == "refusing to bind "@ + addr@
            + " without TLS; pass --allow-plaintext-external to override"@,
{
}

/// A snapshot is served with its own hash, as long as it can be used.
pub proof fn snapshots_are_served_while_usable(c: ClusterSnapshotCache, cache: &Option<ClusterSnapshotCache>,
    generation: u64, now: u64, r: Option<(String, String)>)
    requires
        call_ensures(cluster_snapshot_data, (cache, generation, now), r),
    ensures
        *cache == Some(c) && c.generation == generation && now - c.built_at < 60_000_000_000
            ==> r == Some((c.json, c.hash)),
        *cache == Some(c) && c.generation != generation ==> r is None,
        *cache is None ==> r is None,
{
}

/// The packets in and out are read from their own lines, with commas within the numbers, and the
/// states from theirs.
pub proof fn metrics_of_the_pair(ifconfig: &str, pfctl: &str, r: (u64, u64, u64))
    ensures
        call_ensures(sample_pfsync_metrics, (ifconfig, Some(pfctl)), r)
            ==> r.0 == labelled_number(lines(ifconfig@), "input:"@, true)
            && r.1 == labelled_number(lines(ifconfig@), "output:"@, true)
            && r.2 == labelled_number(lines(pfctl@), "current entries"@, false),
        call_ensures(sample_pfsync_metrics, (ifconfig, None::<&str>), r) ==> r.2 == 0,
{
}

/// Over TLS browsers are told to stay with it; a cluster is enabled by the word for it; a failed
/// export says its status.
pub proof fn what_the_server_says(t: &str, s: Status, h: Option<&'static str>, b: bool, w: String)
    ensures
        call_ensures(transport_security, (false,), h) ==> h is None,
        call_ensures(transport_security, (true,), h) ==> h is Some && h->0@ == "max-age=31536000; includeSubDomains"@,
        call_ensures(cluster_enabled, (Some(t),), b) ==> (b <==> trim(t@) == "YES"@),
        call_ensures(cluster_enabled, (None::<&str>,), b) ==> !b,
        call_ensures(export_failed, (s,), w) ==> w@ == "export: "@ + dec(s.number() as nat),
{
}

/// A request of an origin that is not allowed is forbidden, and one without an origin is not.
pub proof fn foreign_origins_are_forbidden(b: &[u8], allowed: &Option<Vec<String>>, r: Result<(), Status>)
    ensures
        call_ensures(guard_origin, (None::<&[u8]>, allowed), r) ==> r is Ok,
        call_ensures(guard_origin, (Some(b), allowed), r) ==> (r matches Err(s) ==> s == Status::Forbidden),
        call_ensures(guard_origin, (Some(b), allowed), r) ==> (*allowed matches Some(l)
            ==> (header_text(b@) matches Some(o) ==> (r is Ok <==> is_listed(views(l@), o)))),
        call_ensures(guard_origin, (Some(b), allowed), r) && *allowed is None ==> r is Ok,
{
}

/// Setting the mark of a part leaves those of the others, and what is told is what then holds. A
/// snapshot that is kept has its own generation, moment, text and hash.
pub proof fn marks_are_set_one_by_one(part: Part, value: bool, told: PendingChanges, generation: u64, now: u64,
    json: &str, hash: &str, d: ())
    ensures
        forall|l: &mut PendingChanges| #[trigger] call_ensures(PendingChanges::set_pending, (l, part, value), told)
            ==> told == *final(l) && (part == Part::Firewall ==> told.firewall == value && told.nat == (*l).nat
            && told.dns == (*l).dns) && (part == Part::Nat ==> told.nat == value && told.firewall == (*l).firewall
            && told.dns == (*l).dns) && (part == Part::Dns ==> told.dns == value && told.firewall == (*l).firewall
            && told.nat == (*l).nat),
        forall|l: &mut Option<ClusterSnapshotCache>|
            #[trigger] call_ensures(keep_snapshot, (l, generation, now, json, hash), d) ==> (*final(l) matches Some(c)
            && c.generation == generation && c.built_at == now && c.json@ == json@ && c.hash@ == hash@),
{
    assert forall|l: &mut PendingChanges| #[trigger]
        call_ensures(PendingChanges::set_pending, (l, part, value), told) implies told == *final(l)
            && (part == Part::Firewall
        ==> told.firewall == value && told.nat == (*l).nat && told.dns == (*l).dns) && (part == Part::Nat
            ==> told.nat == value
        && told.firewall == (*l).firewall && told.dns == (*l).dns) && (part == Part::Dns ==> told.dns == value
            && told.firewall
        == (*l).firewall && told.nat == (*l).nat) by {
        assert((*l).of(Part::Firewall) == (*l).firewall);
        assert((*l).of(Part::Nat) == (*l).nat);
        assert((*l).of(Part::Dns) == (*l).dns);
    }
}

} // verus!
