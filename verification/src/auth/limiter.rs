//! The limit on failed logins.
//!
//! Every failure counts against the address that it came from and against
//! the name that was tried. Either count alone blocks: an address is easily
//! made up, and a name is not.

use vstd::prelude::*;
use vstd::string::*;

use crate::text::same;

verus! {

/// The failures under one key since a moment, in nanoseconds of the clock.
#[derive(Clone, Debug)]
pub struct Attempts {
    pub key: String,
    pub count: u32,
    pub since: i64,
}

/// The failures by key: how many, and since when.
pub open spec fn table(v: Seq<Attempts>) -> Map<Seq<char>, (u32, i64)>
    decreases v.len(),
{
    if v.len() == 0 {
        Map::empty()
    } else {
        table(v.drop_last()).insert(v.last().key@, (v.last().count, v.last().since))
    }
}

/// No key occurs twice.
pub open spec fn keys_distinct(v: Seq<Attempts>) -> bool {
    forall|i: int, j: int| 0 <= i < j < v.len() ==> (#[trigger] v[i]).key@ != (#[trigger] v[j]).key@
}

/// Whole seconds from `since` to `now`, `window` at most.
pub open spec fn is_within(since: i64, now: i64, window: i64) -> bool {
    now - since < (window + 1) * 1_000_000_000
}

/// The failures that still count at `now`.
pub open spec fn current(m: Map<Seq<char>, (u32, i64)>, now: i64, window: i64) -> Map<Seq<char>, (u32, i64)> {
    Map::new(|k: Seq<char>| m.dom().contains(k) && is_within(m[k].1, now, window), |k: Seq<char>| m[k])
}

/// The failures under `key` that still count.
pub open spec fn current_at(m: Map<Seq<char>, (u32, i64)>, key: Seq<char>, now: i64, window: i64) -> (u32, i64) {
    if m.dom().contains(key) && is_within(m[key].1, now, window) {
        m[key]
    } else {
        (0, now)
    }
}

/// One more.
pub open spec fn one_more(n: u32) -> u32 {
    if n < u32::MAX {
        (n + 1) as u32
    } else {
        n
    }
}

/// The failures after one more under `key`: those that count no more are
/// forgotten.
pub open spec fn bumped(m: Map<Seq<char>, (u32, i64)>, key: Seq<char>, now: i64, window: i64) -> Map<
    Seq<char>,
    (u32, i64),
> {
    let e = current_at(m, key, now, window);
    current(m, now, window).insert(key, (one_more(e.0), e.1))
}

/// The failures under `key` have reached `max`.
pub open spec fn is_over(m: Map<Seq<char>, (u32, i64)>, key: Seq<char>, max: u32, now: i64, window: i64) -> bool {
    m.dom().contains(key) && is_within(m[key].1, now, window) && m[key].0 >= max
}

fn within(since: i64, now: i64, window: i64) -> (r: bool)
    requires
        window >= 1,
    ensures
        r == is_within(since, now, window),
{
    let passed: i128 = now as i128 - since as i128;
    passed < (window as i128 + 1) * 1_000_000_000
}

proof fn lemma_table_dom(v: Seq<Attempts>, key: Seq<char>)
    ensures
        table(v).dom().contains(key) <==> exists|i: int| 0 <= i < v.len() && (#[trigger] v[i]).key@ == key,
    decreases v.len(),
{
    if v.len() > 0 {
        let init = v.drop_last();
        lemma_table_dom(init, key);
        if table(init).dom().contains(key) {
            let i = choose|i: int| 0 <= i < init.len() && (#[trigger] init[i]).key@ == key;
            assert(v[i].key@ == key);
        }
        if exists|i: int| 0 <= i < v.len() && (#[trigger] v[i]).key@ == key {
            let i = choose|i: int| 0 <= i < v.len() && (#[trigger] v[i]).key@ == key;
            if i < v.len() - 1 {
                assert(init[i].key@ == key);
            }
        }
    }
}

proof fn lemma_table_at(v: Seq<Attempts>, i: int)
    requires
        keys_distinct(v),
        0 <= i < v.len(),
    ensures
        table(v).dom().contains(v[i].key@),
        table(v)[v[i].key@] == (v[i].count, v[i].since),
    decreases v.len(),
{
    let init = v.drop_last();
    if i < v.len() - 1 {
        assert(keys_distinct(init)) by {
            assert forall|a: int, b: int| 0 <= a < b < init.len() implies (#[trigger] init[a]).key@ != (
            #[trigger] init[b]).key@ by {
                assert(v[a].key@ != v[b].key@);
            }
        }
        lemma_table_at(init, i);
        assert(init[i] == v[i]);
        assert(v[i].key@ != v[v.len() - 1].key@);
    }
}

proof fn lemma_table_len(v: Seq<Attempts>)
    requires
        keys_distinct(v),
    ensures
        table(v).dom().finite(),
        table(v).dom().len() == v.len(),
    decreases v.len(),
{
    if v.len() > 0 {
        let init = v.drop_last();
        assert forall|a: int, b: int| 0 <= a < b < init.len() implies (#[trigger] init[a]).key@ != (
        #[trigger] init[b]).key@ by {
            assert(v[a].key@ != v[b].key@);
        }
        lemma_table_len(init);
        lemma_table_dom(init, v.last().key@);
        assert(!table(init).dom().contains(v.last().key@)) by {
            if table(init).dom().contains(v.last().key@) {
                let i = choose|i: int| 0 <= i < init.len() && (#[trigger] init[i]).key@ == v.last().key@;
                assert(v[i].key@ != v[v.len() - 1].key@);
            }
        }
        assert(table(v).dom() =~= table(init).dom().insert(v.last().key@));
    } else {
        assert(table(v).dom() =~= Set::empty());
    }
}

/// Adds one failure under `key`, and says whether they have reached `max`.
fn bump(v: &mut Vec<Attempts>, key: &str, max: u32, window: i64, now: i64) -> (r: bool)
    requires
        window >= 1,
        keys_distinct(old(v)@),
    ensures
        keys_distinct(final(v)@),
        table(final(v)@) == bumped(table(old(v)@), key@, now, window),
        r == (one_more(current_at(table(old(v)@), key@, now, window).0) >= max),
{
    let ghost all = v@;
    let ghost m = table(all);
    let mut out: Vec<Attempts> = Vec::new();
    let mut count: u32 = 0;
    let mut since: i64 = now;
    let mut i: usize = 0;
    assert(table(out@) =~= current(table(all.take(0)), now, window).remove(key@));
    while i < v.len()
        invariant
            i <= v@.len(),
            v@ == all,
            window >= 1,
            keys_distinct(all),
            keys_distinct(out@),
            forall|k: int| 0 <= k < out@.len() ==> (#[trigger] out@[k]).key@ != key@,
            forall|k: int, j: int| 0 <= k < out@.len() && i <= j < all.len() ==> (#[trigger] out@[k]).key@ != (#[trigger] all[j]).key@,
            table(out@) == current(table(all.take(i as int)), now, window).remove(key@),
            (count, since) == current_at(table(all.take(i as int)), key@, now, window),
        decreases v.len() - i,
    {
        let ghost before = all.take(i as int);
        let ghost after = all.take(i + 1);
        assert(after.drop_last() =~= before);
        proof {
            lemma_table_dom(before, all[i as int].key@);
            assert(!table(before).dom().contains(all[i as int].key@)) by {
                if table(before).dom().contains(all[i as int].key@) {
                    let k = choose|k: int| 0 <= k < before.len() && (#[trigger] before[k]).key@ == all[i as int].key@;
                    assert(all[k].key@ != all[i as int].key@);
                }
            }
        }
        let e = &v[i];
        if within(e.since, now, window) {
            if same(e.key.as_str(), key) {
                count = e.count;
                since = e.since;
                assert(table(out@) =~= current(table(after), now, window).remove(key@));
            } else {
                let ghost kept = out@;
                out.push(Attempts { key: e.key.clone(), count: e.count, since: e.since });
                assert(out@.drop_last() =~= kept);
                assert(table(out@) =~= current(table(after), now, window).remove(key@));
            }
        } else {
            assert(table(out@) =~= current(table(after), now, window).remove(key@));
        }
        i = i + 1;
    }
    assert(all.take(all.len() as int) =~= all);
    let next: u32 = if count < u32::MAX {
        count + 1
    } else {
        count
    };
    let ghost kept = out@;
    out.push(Attempts { key: key.to_owned(), count: next, since });
    assert(out@.drop_last() =~= kept);
    assert(table(out@) =~= bumped(m, key@, now, window));
    *v = out;
    next >= max
}

/// Whether the failures under `key` have reached `max`.
fn over_cap(v: &Vec<Attempts>, key: &str, max: u32, window: i64, now: i64) -> (r: bool)
    requires
        window >= 1,
        keys_distinct(v@),
    ensures
        r == is_over(table(v@), key@, max, now, window),
{
    let mut i: usize = 0;
    while i < v.len()
        invariant
            i <= v@.len(),
            window >= 1,
            keys_distinct(v@),
            forall|k: int| 0 <= k < i ==> (#[trigger] v@[k]).key@ != key@,
        decreases v.len() - i,
    {
        if same(v[i].key.as_str(), key) {
            proof {
                lemma_table_at(v@, i as int);
            }
            return within(v[i].since, now, window) && v[i].count >= max;
        }
        i = i + 1;
    }
    proof {
        lemma_table_dom(v@, key@);
    }
    false
}

/// Forgets the failures under `key`.
fn forget(v: &mut Vec<Attempts>, key: &str)
    requires
        keys_distinct(old(v)@),
    ensures
        keys_distinct(final(v)@),
        table(final(v)@) == table(old(v)@).remove(key@),
{
    let ghost all = v@;
    let mut out: Vec<Attempts> = Vec::new();
    let mut i: usize = 0;
    assert(table(out@) =~= table(all.take(0)).remove(key@));
    while i < v.len()
        invariant
            i <= v@.len(),
            v@ == all,
            keys_distinct(all),
            keys_distinct(out@),
            forall|k: int, j: int| 0 <= k < out@.len() && i <= j < all.len() ==> (#[trigger] out@[k]).key@ != (#[trigger] all[j]).key@,
            table(out@) == table(all.take(i as int)).remove(key@),
        decreases v.len() - i,
    {
        assert(all.take(i + 1).drop_last() =~= all.take(i as int));
        let e = &v[i];
        if !same(e.key.as_str(), key) {
            let ghost kept = out@;
            out.push(Attempts { key: e.key.clone(), count: e.count, since: e.since });
            assert(out@.drop_last() =~= kept);
        }
        assert(table(out@) =~= table(all.take(i + 1)).remove(key@));
        i = i + 1;
    }
    assert(all.take(all.len() as int) =~= all);
    *v = out;
}

/// The limit on failed logins.
#[derive(Clone, Debug)]
pub struct LoginRateLimiter {
    by_ip: Vec<Attempts>,
    by_user: Vec<Attempts>,
    max_attempts: u32,
    window_secs: i64,
}

impl LoginRateLimiter {
    /// The failures by address.
    pub closed spec fn ips(self) -> Map<Seq<char>, (u32, i64)> {
        table(self.by_ip@)
    }

    /// The failures by name.
    pub closed spec fn users(self) -> Map<Seq<char>, (u32, i64)> {
        table(self.by_user@)
    }

    /// How many failures block.
    pub closed spec fn max(self) -> u32 {
        self.max_attempts
    }

    /// For how many seconds a failure counts.
    pub closed spec fn window(self) -> i64 {
        self.window_secs
    }

    /// At least one failure blocks, a failure counts for at least a second,
    /// and each key stands for itself.
    pub closed spec fn is_valid(self) -> bool {
        self.max_attempts >= 1 && self.window_secs >= 1 && keys_distinct(self.by_ip@) && keys_distinct(self.by_user@)
    }

    /// Both the address and the name, or either, has reached the limit.
    pub open spec fn blocks(self, ip: Seq<char>, username: Seq<char>, now: i64) -> bool {
        is_over(self.ips(), ip, self.max(), now, self.window()) || is_over(
            self.users(),
            username,
            self.max(),
            now,
            self.window(),
        )
    }

    /// A limit of so many failures in so many seconds, one at least of each.
    pub fn with_limits(max_attempts: u32, window_secs: i64) -> (r: LoginRateLimiter)
        ensures
            r.is_valid(),
            r.max() == (if max_attempts >= 1 {
                max_attempts
            } else {
                1
            }),
            r.window() == (if window_secs >= 1 {
                window_secs
            } else {
                1
            }),
            r.ips() == Map::<Seq<char>, (u32, i64)>::empty(),
            r.users() == Map::<Seq<char>, (u32, i64)>::empty(),
    {
        LoginRateLimiter {
            by_ip: Vec::new(),
            by_user: Vec::new(),
            max_attempts: if max_attempts >= 1 {
                max_attempts
            } else {
                1
            },
            window_secs: if window_secs >= 1 {
                window_secs
            } else {
                1
            },
        }
    }

    /// Counts a failure, and says whether the address or the name is blocked
    /// now.
    pub fn record_failure(&mut self, ip: &str, username: &str, now: i64) -> (r: bool)
        requires
            old(self).is_valid(),
        ensures
            final(self).is_valid(),
            final(self).max() == old(self).max(),
            final(self).window() == old(self).window(),
            final(self).ips() == bumped(old(self).ips(), ip@, now, old(self).window()),
            final(self).users() == bumped(old(self).users(), username@, now, old(self).window()),
            r == final(self).blocks(ip@, username@, now),
    {
        let a = bump(&mut self.by_ip, ip, self.max_attempts, self.window_secs, now);
        let b = bump(&mut self.by_user, username, self.max_attempts, self.window_secs, now);
        a || b
    }

    /// Whether the address or the name is blocked.
    pub fn is_blocked(&self, ip: &str, username: &str, now: i64) -> (r: bool)
        requires
            self.is_valid(),
        ensures
            r == self.blocks(ip@, username@, now),
    {
        over_cap(&self.by_ip, ip, self.max_attempts, self.window_secs, now) || over_cap(
            &self.by_user,
            username,
            self.max_attempts,
            self.window_secs,
            now,
        )
    }

    /// Forgets the failures of the address and of the name.
    pub fn clear(&mut self, ip: &str, username: &str)
        requires
            old(self).is_valid(),
        ensures
            final(self).is_valid(),
            final(self).max() == old(self).max(),
            final(self).window() == old(self).window(),
            final(self).ips() == old(self).ips().remove(ip@),
            final(self).users() == old(self).users().remove(username@),
    {
        forget(&mut self.by_ip, ip);
        forget(&mut self.by_user, username);
    }
}

impl LoginRateLimiter {
    /// How many addresses are counted.
    pub fn address_count(&self) -> (n: usize)
        requires
            self.is_valid(),
        ensures
            n == self.ips().dom().len(),
    {
        proof {
            lemma_table_len(self.by_ip@);
        }
        self.by_ip.len()
    }
}

impl Default for LoginRateLimiter {
    /// Five failures in five minutes.
    fn default() -> (r: LoginRateLimiter)
        ensures
            r.is_valid(),
            r.max() == 5,
            r.window() == 300,
            r.ips() == Map::<Seq<char>, (u32, i64)>::empty(),
            r.users() == Map::<Seq<char>, (u32, i64)>::empty(),
    {
        LoginRateLimiter::with_limits(5, 300)
    }
}

/// The failures by name after those at `times`, one after the other, each
/// from an address of its own choice.
pub open spec fn after_failures(m: Map<Seq<char>, (u32, i64)>, key: Seq<char>, times: Seq<i64>, window: i64) -> Map<
    Seq<char>,
    (u32, i64),
>
    decreases times.len(),
{
    if times.len() == 0 {
        m
    } else {
        bumped(after_failures(m, key, times.drop_last(), window), key, times.last(), window)
    }
}

proof fn lemma_count_after(key: Seq<char>, times: Seq<i64>, window: i64)
    requires
        window >= 1,
        0 < times.len() <= u32::MAX,
        forall|i: int| 0 <= i < times.len() ==> times[0] <= (#[trigger] times[i]) && is_within(times[0], times[i], window),
    ensures
        after_failures(Map::empty(), key, times, window).dom().contains(key),
        after_failures(Map::empty(), key, times, window)[key] == (times.len() as u32, times[0]),
    decreases times.len(),
{
    let init = times.drop_last();
    if init.len() > 0 {
        assert forall|i: int| 0 <= i < init.len() implies init[0] <= (#[trigger] init[i]) && is_within(
            init[0],
            init[i],
            window,
        ) by {
            assert(init[i] == times[i]);
        }
        lemma_count_after(key, init, window);
        assert(is_within(times[0], times[times.len() - 1], window));
    } else {
        assert(times.last() == times[0]);
        reveal_with_fuel(after_failures, 2);
    }
}

/// As many failures as the limit within the window block a name, whatever
/// addresses they come from; and one less does not.
pub proof fn name_is_blocked_after_max_failures(name: Seq<char>, times: Seq<i64>, max: u32, window: i64, now: i64)
    requires
        window >= 1,
        max >= 1,
        0 < times.len() <= max,
        forall|i: int| 0 <= i < times.len() ==> times[0] <= (#[trigger] times[i]) && is_within(times[0], times[i], window),
        is_within(times[0], now, window),
    ensures
        is_over(after_failures(Map::empty(), name, times, window), name, max, now, window) <==> times.len() == max,
{
    lemma_count_after(name, times, window);
}

/// A failure under one key changes nothing for another.
pub proof fn failures_stand_apart(
    m: Map<Seq<char>, (u32, i64)>,
    key: Seq<char>,
    other: Seq<char>,
    max: u32,
    now: i64,
    later: i64,
    window: i64,
)
    requires
        key != other,
        now <= later,
        window >= 1,
    ensures
        is_over(bumped(m, key, now, window), other, max, later, window) == is_over(m, other, max, later, window),
{
}

/// What was cleared is not blocked.
pub proof fn cleared_is_not_blocked(m: Map<Seq<char>, (u32, i64)>, key: Seq<char>, max: u32, now: i64, window: i64)
    ensures
        !is_over(m.remove(key), key, max, now, window),
{
}

/// A block ends by itself once the window is over.
pub proof fn block_ends(m: Map<Seq<char>, (u32, i64)>, key: Seq<char>, max: u32, now: i64, window: i64)
    requires
        window >= 1,
        m.dom().contains(key) ==> now - m[key].1 >= (window + 1) * 1_000_000_000,
    ensures
        !is_over(m, key, max, now, window),
{
}

/// Every failure that counts no more is forgotten at the next one, so that no
/// more is remembered than was counted within the window.
pub proof fn old_failures_are_forgotten(m: Map<Seq<char>, (u32, i64)>, key: Seq<char>, now: i64, window: i64)
    requires
        window >= 1,
    ensures
        forall|k: Seq<char>| #[trigger]
            bumped(m, key, now, window).dom().contains(k) ==> is_within(bumped(m, key, now, window)[k].1, now, window),
{
}

/// A failure counts one more than those within the window, from the same moment on; with none
/// within it, it is the first and starts the window anew. Of other keys only what is within the
/// window stays, unchanged.
pub proof fn failure_adds_one(m: Map<Seq<char>, (u32, i64)>, key: Seq<char>, other: Seq<char>, now: i64, window: i64)
    ensures
        bumped(m, key, now, window).dom().contains(key),
        m.dom().contains(key) && is_within(m[key].1, now, window) && m[key].0 < u32::MAX
            ==> bumped(m, key, now, window)[key].0 == m[key].0 + 1,
        m.dom().contains(key) && is_within(m[key].1, now, window) ==> bumped(m, key, now, window)[key].1 == m[key].1
            && bumped(m, key, now, window)[key].0 >= m[key].0,
        !m.dom().contains(key) || !is_within(m[key].1, now, window) ==> bumped(m, key, now, window)[key] == (1u32, now),
        other != key && m.dom().contains(other) && is_within(m[other].1, now, window)
            ==> bumped(m, key, now, window).dom().contains(other) && bumped(m, key, now, window)[other] == m[other],
        other != key && !(m.dom().contains(other) && is_within(m[other].1, now, window))
            ==> !bumped(m, key, now, window).dom().contains(other),
{
}

/// A failure is within the window as long as no more whole seconds have passed than it has.
pub proof fn window_is_counted_in_whole_seconds(since: i64, now: i64, window: i64)
    ensures
        since <= now ==> (is_within(since, now, window) <==> (now - since) / 1_000_000_000 <= window),
        now <= since && window >= 0 ==> is_within(since, now, window),
{
    let d = now - since;
    assert(d == 1_000_000_000 * (d / 1_000_000_000) + d % 1_000_000_000);
}

/// A key is over the limit where it has as many failures within the window, and a login is
/// blocked where its address is or its name is.
pub proof fn limit_blocks(l: LoginRateLimiter, m: Map<Seq<char>, (u32, i64)>, key: Seq<char>, max: u32, ip: Seq<char>,
    username: Seq<char>, now: i64, window: i64)
    ensures
        !m.dom().contains(key) ==> !is_over(m, key, max, now, window),
        m.dom().contains(key) && is_within(m[key].1, now, window) ==> (is_over(m, key, max, now, window)
            <==> m[key].0 >= max),
        is_over(l.ips(), ip, l.max(), now, l.window()) ==> l.blocks(ip, username, now),
        is_over(l.users(), username, l.max(), now, l.window()) ==> l.blocks(ip, username, now),
        l.blocks(ip, username, now) ==> is_over(l.ips(), ip, l.max(), now, l.window())
            || is_over(l.users(), username, l.max(), now, l.window()),
{
}

/// A failure counts one against the address and one against the name, and says whether either
/// is blocked by it; clearing forgets both.
pub proof fn failures_count_for_both(ip: &str, username: &str, now: i64, r: bool, d: ())
    ensures
        forall|l: &mut LoginRateLimiter| #[trigger] call_ensures(LoginRateLimiter::record_failure, (l, ip, username,
            now), r) ==> final(l).ips() == bumped((*l).ips(), ip@, now, (*l).window())
            && final(l).users() == bumped((*l).users(), username@, now, (*l).window()) && final(l).max() == (*l).max()
            && final(l).window() == (*l).window()
            && r == (is_over(final(l).ips(), ip@, (*l).max(), now, (*l).window())
            || is_over(final(l).users(), username@, (*l).max(), now, (*l).window())),
        forall|l: &mut LoginRateLimiter| #[trigger] call_ensures(LoginRateLimiter::clear, (l, ip, username), d)
            ==> final(l).ips() == (*l).ips().remove(ip@) && final(l).users() == (*l).users().remove(username@)
            && final(l).max() == (*l).max() && final(l).window() == (*l).window(),
{
}

} // verus!
