//! Snapshots that are taken by themselves after a change: which requests lead
//! to one, and how a burst of requests leads to a single one.

use vstd::prelude::*;
use vstd::string::*;

use crate::number::{dec, fmt_u64};
use crate::text::{cat3, cat4, ends_with, has_prefix, has_suffix, same, starts_with};

verus! {

/// How many seconds a snapshot waits for further changes.
pub const AUTO_SNAPSHOT_DEBOUNCE_SECS: u64 = 5;

/// A path whose changes are no part of a configuration, or that manages
/// versions itself.
pub open spec fn is_skipped(path: Seq<char>) -> bool {
    ||| has_prefix(path, "/api/v1/config/"@)
    ||| has_prefix(path, "/api/v1/auth/login"@)
    ||| has_prefix(path, "/api/v1/auth/refresh"@)
    ||| has_prefix(path, "/api/v1/auth/logout"@)
    ||| has_prefix(path, "/api/v1/auth/register"@)
    ||| has_prefix(path, "/api/v1/auth/totp/login"@)
    ||| has_prefix(path, "/api/v1/auth/oauth/"@)
    ||| has_prefix(path, "/api/v1/auth/ws-ticket"@)
    ||| has_prefix(path, "/api/v1/dns/stream"@)
    ||| has_prefix(path, "/api/v1/ws"@)
    ||| has_prefix(path, "/api/v1/pending/stream"@)
    ||| has_prefix(path, "/api/v1/updates/"@)
    ||| has_prefix(path, "/api/v1/reload"@)
    ||| has_prefix(path, "/api/v1/metrics"@)
    ||| has_prefix(path, "/api/v1/ids/"@)
    ||| has_prefix(path, "/api/v1/ai/"@)
    ||| has_prefix(path, "/api/v1/connections"@)
    ||| has_suffix(path, "/test"@)
}

/// Whether a change under `path` leads to no snapshot.
pub fn should_skip_auto_snapshot(path: &str) -> (r: bool)
    ensures
        r == is_skipped(path@),
{
    starts_with(path, "/api/v1/config/") || starts_with(path, "/api/v1/auth/login") || starts_with(
        path,
        "/api/v1/auth/refresh",
    ) || starts_with(path, "/api/v1/auth/logout") || starts_with(path, "/api/v1/auth/register") || starts_with(
        path,
        "/api/v1/auth/totp/login",
    ) || starts_with(path, "/api/v1/auth/oauth/") || starts_with(path, "/api/v1/auth/ws-ticket") || starts_with(
        path,
        "/api/v1/dns/stream",
    ) || starts_with(path, "/api/v1/ws") || starts_with(path, "/api/v1/pending/stream") || starts_with(
        path,
        "/api/v1/updates/",
    ) || starts_with(path, "/api/v1/reload") || starts_with(path, "/api/v1/metrics") || starts_with(path, "/api/v1/ids/")
        || starts_with(path, "/api/v1/ai/") || starts_with(path, "/api/v1/connections") || ends_with(path, "/test")
}

/// A method that changes something.
pub open spec fn is_mutating(method: Seq<char>) -> bool {
    method == "POST"@ || method == "PUT"@ || method == "DELETE"@ || method == "PATCH"@
}

/// What a finished request leads to.
#[derive(Clone, Copy, Debug, PartialEq, Eq, Structural)]
pub enum AfterRequest {
    /// Nothing changed.
    Nothing,
    /// Something changed: what was cached of the configuration is out of date.
    Invalidate,
    /// As before, and a snapshot is due.
    InvalidateAndSnapshot,
}

/// What a request with this method and path leads to once it was answered.
pub fn after_request(method: &str, path: &str, success: bool) -> (r: AfterRequest)
    ensures
        r == if !is_mutating(method@) || !success {
            AfterRequest::Nothing
        } else if is_skipped(path@) {
            AfterRequest::Invalidate
        } else {
            AfterRequest::InvalidateAndSnapshot
        },
{
    let mutating = same(method, "POST") || same(method, "PUT") || same(method, "DELETE") || same(method, "PATCH");
    if !mutating || !success {
        AfterRequest::Nothing
    } else if should_skip_auto_snapshot(path) {
        AfterRequest::Invalidate
    } else {
        AfterRequest::InvalidateAndSnapshot
    }
}

/// Changes that a scheduled snapshot will cover.
#[derive(Clone, Debug)]
pub struct AutoSnapshotPending {
    pub scheduled: bool,
    pub coalesced: u32,
    pub last_comment: String,
}

/// The value of an [`AutoSnapshotPending`].
pub struct PendingView {
    pub scheduled: bool,
    pub coalesced: nat,
    pub last_comment: Seq<char>,
}

impl View for AutoSnapshotPending {
    type V = PendingView;

    open spec fn view(&self) -> PendingView {
        PendingView { scheduled: self.scheduled, coalesced: self.coalesced as nat, last_comment: self.last_comment@ }
    }
}

/// No change waits for a snapshot.
pub open spec fn is_idle(p: PendingView) -> bool {
    !p.scheduled && p.coalesced == 0
}

/// What is pending after a change.
pub open spec fn noted(p: PendingView, method: Seq<char>, path: Seq<char>) -> PendingView {
    PendingView { scheduled: true, coalesced: p.coalesced + 1, last_comment: method + " "@ + path }
}

/// The comment of the snapshot: the last change, and how many more it covers.
pub open spec fn comment(p: PendingView) -> Seq<char> {
    if p.coalesced > 1 {
        p.last_comment + " (+"@ + dec((p.coalesced - 1) as nat) + " coalesced)"@
    } else {
        p.last_comment
    }
}

impl AutoSnapshotPending {
    /// Nothing is pending.
    pub fn new() -> (p: AutoSnapshotPending)
        ensures
            is_idle(p@),
    {
        AutoSnapshotPending { scheduled: false, coalesced: 0, last_comment: String::new() }
    }

    /// Takes note of a change. Tells whether a snapshot is to be scheduled:
    /// only where none is.
    pub fn note(&mut self, method: &str, path: &str) -> (schedule: bool)
        requires
            old(self).coalesced < u32::MAX,
        ensures
            final(self)@ == noted(old(self)@, method@, path@),
            schedule == !old(self).scheduled,
    {
        let schedule = !self.scheduled;
        self.coalesced = self.coalesced + 1;
        self.last_comment = cat3(method, " ", path);
        self.scheduled = true;
        schedule
    }

    /// The scheduled snapshot is taken: gives its comment, and nothing is
    /// pending any more.
    pub fn take(&mut self) -> (c: String)
        ensures
            c@ == comment(old(self)@),
            is_idle(final(self)@),
    {
        let c = if self.coalesced > 1 {
            let n = fmt_u64((self.coalesced - 1) as u64);
            cat4(self.last_comment.as_str(), " (+", n.as_str(), " coalesced)")
        } else {
            self.last_comment.clone()
        };
        self.scheduled = false;
        self.coalesced = 0;
        self.last_comment = String::new();
        c
    }
}

/// What is pending after a burst of changes, given as methods and paths.
pub open spec fn after_burst(p: PendingView, burst: Seq<(Seq<char>, Seq<char>)>) -> PendingView
    decreases burst.len(),
{
    if burst.len() == 0 {
        p
    } else {
        noted(after_burst(p, burst.drop_last()), burst.last().0, burst.last().1)
    }
}

/// How many snapshots a burst of changes schedules.
pub open spec fn scheduled_by(p: PendingView, burst: Seq<(Seq<char>, Seq<char>)>) -> nat
    decreases burst.len(),
{
    if burst.len() == 0 {
        0
    } else {
        scheduled_by(p, burst.drop_last()) + if after_burst(p, burst.drop_last()).scheduled {
            0nat
        } else {
            1
        }
    }
}

/// A burst of changes leads to one snapshot, whose comment names the last
/// change and counts the others.
pub proof fn burst_leads_to_one_snapshot(p: PendingView, burst: Seq<(Seq<char>, Seq<char>)>)
    requires
        is_idle(p),
        burst.len() > 0,
    ensures
        scheduled_by(p, burst) == 1,
        after_burst(p, burst).coalesced == burst.len(),
        comment(after_burst(p, burst)) == if burst.len() > 1 {
            burst.last().0 + " "@ + burst.last().1 + " (+"@ + dec((burst.len() - 1) as nat) + " coalesced)"@
        } else {
            burst.last().0 + " "@ + burst.last().1
        },
    decreases burst.len(),
{
    reveal_with_fuel(after_burst, 2);
    reveal_with_fuel(scheduled_by, 2);
    if burst.len() > 1 {
        burst_leads_to_one_snapshot(p, burst.drop_last());
    }
}

// ---------------------------------------------------------------------------
// Laws
// ---------------------------------------------------------------------------

/// A change of the configuration leads to a snapshot; what signs in and out,
/// reads, tests or keeps its own history does not.
pub proof fn paths_without_a_snapshot(path: Seq<char>)
    ensures
        has_prefix(path, "/api/v1/config/"@) ==> is_skipped(path),
        has_prefix(path, "/api/v1/auth/login"@) ==> is_skipped(path),
        has_prefix(path, "/api/v1/auth/refresh"@) ==> is_skipped(path),
        has_prefix(path, "/api/v1/auth/logout"@) ==> is_skipped(path),
        has_prefix(path, "/api/v1/auth/register"@) ==> is_skipped(path),
        has_prefix(path, "/api/v1/auth/totp/login"@) ==> is_skipped(path),
        has_prefix(path, "/api/v1/auth/oauth/"@) ==> is_skipped(path),
        has_prefix(path, "/api/v1/auth/ws-ticket"@) ==> is_skipped(path),
        has_prefix(path, "/api/v1/dns/stream"@) ==> is_skipped(path),
        has_prefix(path, "/api/v1/ws"@) ==> is_skipped(path),
        has_prefix(path, "/api/v1/pending/stream"@) ==> is_skipped(path),
        has_prefix(path, "/api/v1/updates/"@) ==> is_skipped(path),
        has_prefix(path, "/api/v1/reload"@) ==> is_skipped(path),
        has_prefix(path, "/api/v1/metrics"@) ==> is_skipped(path),
        has_prefix(path, "/api/v1/ids/"@) ==> is_skipped(path),
        has_prefix(path, "/api/v1/ai/"@) ==> is_skipped(path),
        has_prefix(path, "/api/v1/connections"@) ==> is_skipped(path),
        has_suffix(path, "/test"@) ==> is_skipped(path),
        is_skipped(path) && !has_prefix(path, "/api/v1/auth/"@) ==> has_suffix(path, "/test"@)
            || has_prefix(path, "/api/v1/config/"@)
            || has_prefix(path, "/api/v1/dns/stream"@) || has_prefix(path, "/api/v1/ws"@)
                || has_prefix(path, "/api/v1/pending/stream"@)
            || has_prefix(path, "/api/v1/updates/"@) || has_prefix(path, "/api/v1/reload"@)
                || has_prefix(path, "/api/v1/metrics"@)
            || has_prefix(path, "/api/v1/ids/"@) || has_prefix(path, "/api/v1/ai/"@)
                || has_prefix(path, "/api/v1/connections"@),
{
    lemma_auth_prefix(path, "/api/v1/auth/login"@);
    lemma_auth_prefix(path, "/api/v1/auth/refresh"@);
    lemma_auth_prefix(path, "/api/v1/auth/logout"@);
    lemma_auth_prefix(path, "/api/v1/auth/register"@);
    lemma_auth_prefix(path, "/api/v1/auth/totp/login"@);
    lemma_auth_prefix(path, "/api/v1/auth/oauth/"@);
    lemma_auth_prefix(path, "/api/v1/auth/ws-ticket"@);
    lemma_auth_paths();
}

proof fn lemma_auth_prefix(path: Seq<char>, p: Seq<char>)
    ensures
        has_prefix(path, p) && has_prefix(p, "/api/v1/auth/"@) ==> has_prefix(path, "/api/v1/auth/"@),
{
    if has_prefix(path, p) && has_prefix(p, "/api/v1/auth/"@) {
        let n = "/api/v1/auth/"@.len() as int;
        assert(path.take(n) =~= p.take(n)) by {
            assert(path.take(p.len() as int) == p);
            assert forall|i: int| 0 <= i < n implies path[i] == p[i] by {
                assert(path.take(p.len() as int)[i] == path[i]);
            }
        }
    }
}

proof fn lemma_auth_paths()
    ensures
        has_prefix("/api/v1/auth/login"@, "/api/v1/auth/"@),
        has_prefix("/api/v1/auth/refresh"@, "/api/v1/auth/"@),
        has_prefix("/api/v1/auth/logout"@, "/api/v1/auth/"@),
        has_prefix("/api/v1/auth/register"@, "/api/v1/auth/"@),
        has_prefix("/api/v1/auth/totp/login"@, "/api/v1/auth/"@),
        has_prefix("/api/v1/auth/oauth/"@, "/api/v1/auth/"@),
        has_prefix("/api/v1/auth/ws-ticket"@, "/api/v1/auth/"@),
{
    reveal_strlit("/api/v1/auth/");
    reveal_strlit("/api/v1/auth/login");
    reveal_strlit("/api/v1/auth/refresh");
    reveal_strlit("/api/v1/auth/logout");
    reveal_strlit("/api/v1/auth/register");
    reveal_strlit("/api/v1/auth/totp/login");
    reveal_strlit("/api/v1/auth/oauth/");
    reveal_strlit("/api/v1/auth/ws-ticket");
    let p = "/api/v1/auth/"@;
    assert("/api/v1/auth/login"@.take(13) =~= p);
    assert("/api/v1/auth/refresh"@.take(13) =~= p);
    assert("/api/v1/auth/logout"@.take(13) =~= p);
    assert("/api/v1/auth/register"@.take(13) =~= p);
    assert("/api/v1/auth/totp/login"@.take(13) =~= p);
    assert("/api/v1/auth/oauth/"@.take(13) =~= p);
    assert("/api/v1/auth/ws-ticket"@.take(13) =~= p);
}

/// The methods that change something.
pub proof fn methods_that_change(method: Seq<char>)
    ensures
        is_mutating("POST"@) && is_mutating("PUT"@) && is_mutating("DELETE"@) && is_mutating("PATCH"@),
        is_mutating(method) ==> method.len() >= 3 && method != "GET"@ && method != "HEAD"@ && method != "OPTIONS"@,
{
    reveal_strlit("POST");
    reveal_strlit("PUT");
    reveal_strlit("DELETE");
    reveal_strlit("PATCH");
    reveal_strlit("GET");
    reveal_strlit("HEAD");
    reveal_strlit("OPTIONS");
    assert("POST"@[0] == 'P' && "PUT"@[0] == 'P' && "DELETE"@[0] == 'D' && "PATCH"@[0] == 'P' && "GET"@[0] == 'G'
        && "HEAD"@[0] == 'H'
        && "OPTIONS"@[0] == 'O');
}

/// The comment of a snapshot names the last change of the burst, and how many
/// others there were.
pub proof fn comment_names_the_last_change(p: PendingView, burst: Seq<(Seq<char>, Seq<char>)>)
    requires
        !p.scheduled,
        p.coalesced == 0,
        burst.len() > 0,
    ensures
        ({
            let last = burst.last().0 + " "@ + burst.last().1;
            let q = after_burst(p, burst);
            &&& q.scheduled
            &&& q.coalesced == burst.len()
            &&& burst.len() == 1 ==> comment(q) == last
            &&& burst.len() > 1 ==> comment(q) == last + " (+"@ + dec((burst.len() - 1) as nat) + " coalesced)"@
        }),
    decreases burst.len(),
{
    reveal_with_fuel(after_burst, 2);
    if burst.len() > 1 {
        comment_names_the_last_change(p, burst.drop_last());
    } else {
        assert(burst.drop_last().len() == 0);
    }
}

/// What is pending stands in the view, each part in its own place.
pub proof fn pending_is_viewed_in_place(p: AutoSnapshotPending)
    ensures
        p@.scheduled == p.scheduled,
        p@.coalesced == p.coalesced,
        p@.last_comment == p.last_comment@,
{
}

/// A request that changes nothing or failed leaves everything; one that changed something drops
/// what is cached, and makes a snapshot unless its path makes none.
pub proof fn changes_make_snapshots(method: &str, path: &str, r: AfterRequest)
    ensures
        call_ensures(after_request, (method, path, false), r) ==> r == AfterRequest::Nothing,
        call_ensures(after_request, (method, path, true), r) && !is_mutating(method@) ==> r == AfterRequest::Nothing,
        call_ensures(after_request, (method, path, true), r) && is_mutating(method@) && is_skipped(path@)
            ==> r == AfterRequest::Invalidate,
        call_ensures(after_request, (method, path, true), r) && is_mutating(method@) && !is_skipped(path@)
            ==> r == AfterRequest::InvalidateAndSnapshot,
{
}

} // verus!
