//! What the authentication of a request remembers for a while.

use vstd::prelude::*;
use vstd::string::*;

verus! {

/// What a token says.
#[derive(Clone, Debug)]
pub struct Claims {
    /// The user that it was made for.
    pub sub: String,
    /// The identifier by which it is revoked.
    pub jti: String,
    /// When it expires, in seconds of the clock.
    pub exp: i64,
    /// The permissions that it carries, one per bit.
    pub perm: Option<u64>,
    pub role: Option<String>,
}

/// What is known of a user.
#[derive(Clone, Debug)]
pub struct User {
    pub username: String,
    pub role: String,
    pub role_id: Option<String>,
    pub enabled: bool,
}

/// What a cache holds under a key.
#[derive(Clone, Debug)]
pub enum CacheEntry {
    /// What a token says, under the token.
    Token(Claims),
    /// Whether a token was revoked, under its identifier.
    Revoked(bool),
    /// A user, under the user's identifier.
    Account(User),
}

/// A copy of what a token says.
pub fn copy_claims(c: &Claims) -> (r: Claims)
    ensures
        r == *c,
{
    Claims { sub: c.sub.clone(), jti: c.jti.clone(), exp: c.exp, perm: c.perm, role: c.role.clone() }
}

/// A copy of what is known of a user.
pub fn copy_user(u: &User) -> (r: User)
    ensures
        r == *u,
{
    User { username: u.username.clone(), role: u.role.clone(), role_id: u.role_id.clone(), enabled: u.enabled }
}

fn copy_slot(e: &(CacheEntry, u64)) -> (r: (CacheEntry, u64))
    ensures
        r == *e,
{
    let entry = match &e.0 {
        CacheEntry::Token(c) => CacheEntry::Token(copy_claims(c)),
        CacheEntry::Revoked(b) => CacheEntry::Revoked(*b),
        CacheEntry::Account(u) => CacheEntry::Account(copy_user(u)),
    };
    (entry, e.1)
}

fn is_live(e: &(CacheEntry, u64), now: u64) -> (r: bool)
    ensures
        r == (e.1 > now),
{
    e.1 > now
}

/// The map of the `dashmap` crate.
#[verifier::external_type_specification]
#[verifier::external_body]
#[verifier::reject_recursive_types(K)]
#[verifier::reject_recursive_types(V)]
#[verifier::reject_recursive_types(S)]
pub struct ExDashMap<K, V, S>(dashmap::DashMap<K, V, S>);

/// A map from a key to an entry and the moment from which on it counts no
/// more, in nanoseconds.
pub type CacheMap = dashmap::DashMap<String, (CacheEntry, u64), std::hash::RandomState>;

/// What a map holds.
pub uninterp spec fn cached(m: CacheMap) -> Map<Seq<char>, (CacheEntry, u64)>;

/// No entry at all.
pub open spec fn nothing_cached() -> Map<Seq<char>, (CacheEntry, u64)> {
    Map::empty()
}

/// `dashmap::DashMap::new`: a map that holds nothing.
#[verifier::external_body]
pub(crate) fn cache_new() -> (m: CacheMap)
    ensures
        cached(m) == nothing_cached(),
{
    dashmap::DashMap::new()
}

/// `dashmap::DashMap::view`: a copy of what stands under the key.
#[verifier::external_body]
pub(crate) fn cache_get(m: &CacheMap, key: &str) -> (r: Option<(CacheEntry, u64)>)
    ensures
        match r {
            Some(e) => cached(*m).dom().contains(key@) && e == cached(*m)[key@],
            None => !cached(*m).dom().contains(key@),
        },
{
    m.view(key, |_, e| copy_slot(e))
}

/// `dashmap::DashMap::insert`: the entry stands under the key, in place of
/// what stood there.
#[verifier::external_body]
pub(crate) fn cache_insert(m: &mut CacheMap, key: String, entry: CacheEntry, until: u64)
    ensures
        cached(*final(m)) == cached(*old(m)).insert(key@, (entry, until)),
{
    m.insert(key, (entry, until));
}

/// `dashmap::DashMap::remove`: nothing stands under the key.
#[verifier::external_body]
pub(crate) fn cache_remove(m: &mut CacheMap, key: &str)
    ensures
        cached(*final(m)) == cached(*old(m)).remove(key@),
{
    m.remove(key);
}

/// `dashmap::DashMap::len`: how many keys the map holds.
#[verifier::external_body]
pub(crate) fn cache_len(m: &CacheMap) -> (n: usize)
    ensures
        n == cached(*m).dom().len(),
{
    m.len()
}

/// The entries that still count at `now`.
pub open spec fn live_at(m: Map<Seq<char>, (CacheEntry, u64)>, now: u64) -> Map<Seq<char>, (CacheEntry, u64)> {
    Map::new(|k: Seq<char>| m.dom().contains(k) && m[k].1 > now, |k: Seq<char>| m[k])
}

/// `dashmap::DashMap::retain`, with the test whether an entry still counts:
/// only those that do stay, as they are.
#[verifier::external_body]
pub(crate) fn cache_sweep(m: &mut CacheMap, now: u64)
    ensures
        cached(*final(m)) == live_at(cached(*old(m)), now),
{
    m.retain(|_, e| is_live(e, now))
}

/// What stands under the key, where it still counts.
pub open spec fn fresh(m: Map<Seq<char>, (CacheEntry, u64)>, key: Seq<char>, now: u64) -> Option<CacheEntry> {
    if m.dom().contains(key) && m[key].1 > now {
        Some(m[key].0)
    } else {
        None
    }
}

/// What stands under the key, where it still counts.
pub(crate) fn cache_fresh(m: &CacheMap, key: &str, now: u64) -> (r: Option<CacheEntry>)
    ensures
        r == fresh(cached(*m), key@, now),
{
    match cache_get(m, key) {
        Some(e) => if e.1 > now {
            Some(e.0)
        } else {
            None
        },
        None => None,
    }
}

/// Sweeping changes nothing that still counts.
pub proof fn sweep_keeps_what_counts(m: Map<Seq<char>, (CacheEntry, u64)>, key: Seq<char>, now: u64, later: u64)
    requires
        now <= later,
    ensures
        fresh(live_at(m, now), key, later) == fresh(m, key, later),
{
}

/// An entry is found under its key until its time is over, and a sweep drops just those whose
/// time is.
pub proof fn cache_answers_in_time(m: Map<Seq<char>, (CacheEntry, u64)>, key: Seq<char>, now: u64)
    ensures
        nothing_cached().dom() == Set::<Seq<char>>::empty(),
        !m.dom().contains(key) ==> fresh(m, key, now) is None,
        m.dom().contains(key) && m[key].1 > now ==> fresh(m, key, now) == Some(m[key].0),
        m.dom().contains(key) && m[key].1 <= now ==> fresh(m, key, now) is None,
        live_at(m, now).dom().contains(key) <==> m.dom().contains(key) && m[key].1 > now,
        live_at(m, now).dom().contains(key) ==> live_at(m, now)[key] == m[key],
{
}

} // verus!
