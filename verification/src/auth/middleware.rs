//! Who makes a request, and what they may do.
//!
//! The caller performs what a step asks for and hands the answer to the
//! function that takes it, until a step admits or refuses the request.

use vstd::prelude::*;
use vstd::string::*;

use crate::auth::cache::{
    cache_fresh, cache_insert, cache_len, cache_new, cache_sweep, cached, copy_claims, copy_user, fresh, live_at,
    nothing_cached, CacheEntry, CacheMap, Claims, User,
};
use crate::auth::cookies::{cookie_pairs, cookie_value, first_value, header_str, header_text, ACCESS_COOKIE};
use crate::kv::option_view;
use crate::net::{is_hex, is_hex_char};
use crate::status::Status;
use crate::text::{chars_of, has_prefix, same, split, split_text, strip_prefix, views};

verus! {

/// How long a user is remembered, in nanoseconds.
pub const AUTH_USER_CACHE_NANOS: u64 = 5_000_000_000;

/// How long it is remembered whether a token was revoked, in nanoseconds.
pub const AUTH_JTI_CACHE_NANOS: u64 = 60_000_000_000;

/// How long a token is remembered at most, in seconds.
pub const AUTH_TOKEN_CACHE_TTL: u64 = 60;

/// How many tokens are remembered before those that count no more are swept.
pub const AUTH_TOKEN_CACHE_MAX: usize = 10_000;

/// The last moment at which a request can be timed, in nanoseconds.
pub const LAST_MOMENT: u64 = 18_446_744_013_709_551_615;

/// How many seconds a token is remembered: as long as it is valid, and for
/// [`AUTH_TOKEN_CACHE_TTL`] at most.
pub open spec fn token_ttl(exp_unix: int, now_unix: int) -> int {
    if exp_unix <= now_unix {
        0
    } else if exp_unix - now_unix < AUTH_TOKEN_CACHE_TTL {
        exp_unix - now_unix
    } else {
        AUTH_TOKEN_CACHE_TTL as int
    }
}

/// How many seconds a token is remembered.
pub fn token_cache_ttl_secs(exp_unix: i64, now_unix: i64) -> (r: u64)
    requires
        i64::MIN <= exp_unix - now_unix <= i64::MAX,
    ensures
        r == token_ttl(exp_unix as int, now_unix as int),
{
    let remaining: i64 = exp_unix - now_unix;
    if remaining <= 0 {
        0
    } else if (remaining as u64) < AUTH_TOKEN_CACHE_TTL {
        remaining as u64
    } else {
        AUTH_TOKEN_CACHE_TTL
    }
}

/// A token is not remembered beyond the moment at which it expires: while an
/// entry made at `now` counts, less time has passed than the token had left.
pub proof fn token_is_forgotten_in_time(exp_unix: int, now_unix: int, now: int, later: int)
    requires
        now + token_ttl(exp_unix, now_unix) * 1_000_000_000 > later,
    ensures
        later - now < (exp_unix - now_unix) * 1_000_000_000 || later < now,
        later - now < AUTH_TOKEN_CACHE_TTL * 1_000_000_000,
        exp_unix <= now_unix ==> later < now,
{
}

// ---------------------------------------------------------------------------
// The credential of a request
// ---------------------------------------------------------------------------

/// The pieces of `s` behind the first with that prefix.
pub open spec fn first_with_prefix(pieces: Seq<Seq<char>>, prefix: Seq<char>) -> Option<Seq<char>>
    decreases pieces.len(),
{
    if pieces.len() == 0 {
        None
    } else if has_prefix(pieces[0], prefix) {
        Some(pieces[0].skip(prefix.len() as int))
    } else {
        first_with_prefix(pieces.skip(1), prefix)
    }
}

/// Every character is a hexadecimal digit.
pub open spec fn all_hex(s: Seq<char>) -> bool {
    forall|i: int| 0 <= i < s.len() ==> is_hex(#[trigger] s[i])
}

/// The ticket of a query: what the first `ticket=` is followed by, where it
/// holds hexadecimal digits only.
pub open spec fn ticket_of(query: Option<Seq<char>>) -> Option<Seq<char>> {
    match query {
        Some(q) => match first_with_prefix(split(q, '&'), "ticket="@) {
            Some(t) => if all_hex(t) {
                Some(t)
            } else {
                None
            },
            None => None,
        },
        None => None,
    }
}

/// The ticket of a query string.
pub fn query_ticket(q: Option<&str>) -> (r: Option<String>)
    ensures
        option_view(r) == ticket_of(match q {
            Some(s) => Some(s@),
            None => None,
        }),
{
    let query = match q {
        Some(s) => s,
        None => {
            return None;
        },
    };
    let pieces = split_text(query, '&');
    let ghost all = views(pieces@);
    let mut i: usize = 0;
    assert(all.skip(0) =~= all);
    while i < pieces.len()
        invariant
            i <= pieces@.len(),
            all == views(pieces@),
            all == split(query@, '&'),
            q matches Some(s) && s@ == query@,
            first_with_prefix(all, "ticket="@) == first_with_prefix(all.skip(i as int), "ticket="@),
        decreases pieces.len() - i,
    {
        assert(all.skip(i as int).skip(1) =~= all.skip(i + 1));
        assert(all.skip(i as int)[0] == pieces@[i as int]@);
        match strip_prefix(pieces[i].as_str(), "ticket=") {
            Some(t) => {
                if is_all_hex(t.as_str()) {
                    return Some(t);
                }
                return None;
            },
            None => {},
        }
        i = i + 1;
    }
    None
}

fn is_all_hex(s: &str) -> (r: bool)
    ensures
        r == all_hex(s@),
{
    let v = chars_of(s);
    let mut i: usize = 0;
    while i < v.len()
        invariant
            i <= v@.len(),
            v@ == s@,
            forall|k: int| 0 <= k < i ==> is_hex(#[trigger] v@[k]),
        decreases v.len() - i,
    {
        if !is_hex_char(v[i]) {
            assert(!is_hex(s@[i as int]));
            return false;
        }
        i = i + 1;
    }
    true
}

/// What is read of a request to find who makes it.
#[derive(Clone, Debug)]
pub struct AuthRequest {
    pub method: String,
    /// The first `Authorization` header.
    pub authorization: Option<Vec<u8>>,
    pub query: Option<String>,
    /// The `Cookie` headers.
    pub cookies: Vec<Vec<u8>>,
    /// There is a header against requests forged by another site.
    pub has_csrf_header: bool,
}

/// What a request brings along to be let in.
#[derive(Clone, Debug)]
pub enum Credential {
    Token(String),
    ApiKey(String),
    Ticket(String),
}

/// The value of a [`Credential`].
pub enum CredentialView {
    Token(Seq<char>),
    ApiKey(Seq<char>),
    Ticket(Seq<char>),
}

impl View for Credential {
    type V = CredentialView;

    open spec fn view(&self) -> CredentialView {
        match *self {
            Credential::Token(t) => CredentialView::Token(t@),
            Credential::ApiKey(t) => CredentialView::ApiKey(t@),
            Credential::Ticket(t) => CredentialView::Ticket(t@),
        }
    }
}

/// The method reads only.
pub open spec fn is_safe(method: Seq<char>) -> bool {
    method == "GET"@ || method == "HEAD"@ || method == "OPTIONS"@
}

/// The text of the `Authorization` header.
pub open spec fn header_of(r: AuthRequest) -> Option<Seq<char>> {
    match r.authorization {
        Some(b) => header_text(b@),
        None => None,
    }
}

/// The token in the cookie. A header or a ticket has precedence over it.
pub open spec fn cookie_of(r: AuthRequest) -> Option<Seq<char>> {
    if header_of(r) is None && ticket_of(option_view(r.query)) is None {
        first_value(cookie_pairs(r.cookies@), ACCESS_COOKIE@)
    } else {
        None
    }
}

/// The token or the key in the `Authorization` header.
pub open spec fn header_credential(h: Option<Seq<char>>) -> Option<CredentialView> {
    match h {
        Some(t) => if has_prefix(t, "Bearer "@) {
            Some(CredentialView::Token(t.skip("Bearer "@.len() as int)))
        } else if has_prefix(t, "ApiKey "@) {
            Some(CredentialView::ApiKey(t.skip("ApiKey "@.len() as int)))
        } else {
            None
        },
        None => None,
    }
}

/// What a request brings along, or why it is turned away: a request that
/// changes something by the cookie alone is forbidden without the header
/// against forgery, and one that brings nothing is not authorized.
pub open spec fn credential_of(r: AuthRequest) -> Result<CredentialView, Status> {
    if cookie_of(r) is Some && !is_safe(r.method@) && !r.has_csrf_header {
        Err(Status::Forbidden)
    } else {
        match header_credential(header_of(r)) {
            Some(c) => Ok(c),
            None => match cookie_of(r) {
                Some(t) => Ok(CredentialView::Token(t)),
                None => match ticket_of(option_view(r.query)) {
                    Some(t) => Ok(CredentialView::Ticket(t)),
                    None => Err(Status::Unauthorized),
                },
            },
        }
    }
}

/// What a request brings along to be let in.
pub fn find_credential(r: &AuthRequest) -> (c: Result<Credential, Status>)
    ensures
        match c {
            Ok(v) => credential_of(*r) == Ok::<CredentialView, Status>(v@),
            Err(e) => credential_of(*r) == Err::<CredentialView, Status>(e),
        },
{
    let header = match &r.authorization {
        Some(b) => header_str(b.as_slice()),
        None => None,
    };
    let ticket = match &r.query {
        Some(q) => query_ticket(Some(q.as_str())),
        None => query_ticket(None),
    };
    assert(option_view(ticket) == ticket_of(option_view(r.query)));
    let cookie = if header.is_none() && ticket.is_none() {
        cookie_value(&r.cookies, ACCESS_COOKIE)
    } else {
        None
    };
    assert(option_view(cookie) == cookie_of(*r));
    let m = r.method.as_str();
    let safe = same(m, "GET") || same(m, "HEAD") || same(m, "OPTIONS");
    if cookie.is_some() && !safe && !r.has_csrf_header {
        return Err(Status::Forbidden);
    }
    match &header {
        Some(h) => {
            match strip_prefix(h.as_str(), "Bearer ") {
                Some(t) => {
                    return Ok(Credential::Token(t));
                },
                None => {},
            }
            match strip_prefix(h.as_str(), "ApiKey ") {
                Some(t) => {
                    return Ok(Credential::ApiKey(t));
                },
                None => {},
            }
        },
        None => {},
    }
    match cookie {
        Some(t) => Ok(Credential::Token(t)),
        None => match ticket {
            Some(t) => Ok(Credential::Ticket(t)),
            None => Err(Status::Unauthorized),
        },
    }
}

/// A request that changes something by the cookie alone is forbidden without
/// the header against forgery, and with it the cookie counts.
pub proof fn cookie_needs_the_header(r: AuthRequest)
    requires
        cookie_of(r) is Some,
        !is_safe(r.method@),
    ensures
        !r.has_csrf_header ==> credential_of(r) == Err::<CredentialView, Status>(Status::Forbidden),
        r.has_csrf_header ==> credential_of(r) == Ok::<CredentialView, Status>(CredentialView::Token(cookie_of(r)->0)),
{
}

/// A header or a ticket has precedence over the cookies: with one of them,
/// what the cookies hold changes nothing.
pub proof fn cookies_come_last(r: AuthRequest, cookies: Vec<Vec<u8>>)
    requires
        header_of(r) is Some || ticket_of(option_view(r.query)) is Some,
    ensures
        credential_of(AuthRequest { cookies, ..r }) == credential_of(r),
{
}

// ---------------------------------------------------------------------------
// The steps
// ---------------------------------------------------------------------------

/// Whom a credential stands for.
#[derive(Clone, Debug)]
pub struct Subject {
    pub user_id: String,
    /// The permissions that the token carries.
    pub perm: Option<u64>,
    /// The role that the token carries.
    pub role: Option<String>,
    pub api_key_name: Option<String>,
}

/// Who makes a request.
#[derive(Clone, Debug)]
pub struct AuthUser {
    pub user_id: String,
    pub username: String,
    /// One bit for each permission.
    pub permissions: u64,
    pub role: String,
    pub api_key_name: Option<String>,
}

/// What is to be done next for a request.
#[derive(Clone, Debug)]
pub enum AuthStep {
    /// Verify the token; the answer goes to [`token_verified`].
    VerifyToken(String),
    /// Look up whether the token was revoked; the answer goes to
    /// [`revocation_known`].
    CheckRevoked(Claims),
    /// Verify the key; the answer goes to [`api_key_verified`].
    VerifyApiKey(String),
    /// Use the ticket up; the answer goes to [`ticket_consumed`].
    ConsumeTicket(String),
    /// Look up the user; the answer goes to [`user_found`].
    FindUser(Subject),
    /// Look up the permissions of the user's role; the answer goes to
    /// [`permissions_resolved`].
    ResolvePermissions(Subject, User),
    /// Ask the plugins; the answer goes to [`plugins_answered`].
    AskPlugins(AuthUser),
    /// The request goes on.
    Admit(AuthUser),
    /// The request ends with this status.
    Refuse(Status),
}

/// What is remembered between requests.
pub struct AuthCaches {
    pub tokens: CacheMap,
    pub revocations: CacheMap,
    pub users: CacheMap,
}

impl AuthCaches {
    /// Nothing is remembered yet.
    pub fn new() -> (c: AuthCaches)
        ensures
            cached(c.tokens) == nothing_cached(),
            cached(c.revocations) == nothing_cached(),
            cached(c.users) == nothing_cached(),
    {
        AuthCaches { tokens: cache_new(), revocations: cache_new(), users: cache_new() }
    }
}

/// What a remembered token says.
pub open spec fn known_claims(c: AuthCaches, token: Seq<char>, now: u64) -> Option<Claims> {
    match fresh(cached(c.tokens), token, now) {
        Some(CacheEntry::Token(x)) => Some(x),
        _ => None,
    }
}

/// Whether a token is remembered as revoked.
pub open spec fn known_revocation(c: AuthCaches, jti: Seq<char>, now: u64) -> Option<bool> {
    match fresh(cached(c.revocations), jti, now) {
        Some(CacheEntry::Revoked(b)) => Some(b),
        _ => None,
    }
}

/// A remembered user.
pub open spec fn known_user(c: AuthCaches, id: Seq<char>, now: u64) -> Option<User> {
    match fresh(cached(c.users), id, now) {
        Some(CacheEntry::Account(u)) => Some(u),
        _ => None,
    }
}

/// Whom a token stands for.
pub open spec fn subject_of(c: Claims) -> Subject {
    Subject { user_id: c.sub, perm: c.perm, role: c.role, api_key_name: None }
}

/// The user with these permissions and this role.
pub open spec fn admitted(s: Subject, u: User, permissions: u64, role: String) -> AuthUser {
    AuthUser { user_id: s.user_id, username: u.username, permissions, role, api_key_name: s.api_key_name }
}

/// The step for a user that is known with all permissions.
pub open spec fn hook_step(a: AuthUser, plugins: usize) -> AuthStep {
    if plugins > 0 {
        AuthStep::AskPlugins(a)
    } else {
        AuthStep::Admit(a)
    }
}

/// The step for a subject whose user is known: a disabled user is turned
/// away, and the permissions come from the token where it carries them.
pub open spec fn user_step(s: Subject, u: User, plugins: usize) -> AuthStep {
    if !u.enabled {
        AuthStep::Refuse(Status::Unauthorized)
    } else {
        match s.perm {
            Some(bits) => hook_step(
                admitted(
                    s,
                    u,
                    bits,
                    match s.role {
                        Some(r) => r,
                        None => u.role,
                    },
                ),
                plugins,
            ),
            None => AuthStep::ResolvePermissions(s, u),
        }
    }
}

/// The step for a subject.
pub open spec fn subject_step(c: AuthCaches, s: Subject, now: u64, plugins: usize) -> AuthStep {
    match known_user(c, s.user_id@, now) {
        Some(u) => user_step(s, u, plugins),
        None => AuthStep::FindUser(s),
    }
}

/// The step for a verified token.
pub open spec fn claims_step(c: AuthCaches, x: Claims, now: u64, plugins: usize) -> AuthStep {
    match known_revocation(c, x.jti@, now) {
        Some(revoked) => if revoked {
            AuthStep::Refuse(Status::Unauthorized)
        } else {
            subject_step(c, subject_of(x), now, plugins)
        },
        None => AuthStep::CheckRevoked(x),
    }
}

/// `step` is the first for the request.
pub open spec fn is_first_step(step: AuthStep, c: AuthCaches, r: AuthRequest, now: u64, plugins: usize) -> bool {
    match credential_of(r) {
        Ok(CredentialView::Token(t)) => match known_claims(c, t, now) {
            Some(x) => step == claims_step(c, x, now, plugins),
            None => step matches AuthStep::VerifyToken(s) && s@ == t,
        },
        Ok(CredentialView::ApiKey(k)) => step matches AuthStep::VerifyApiKey(s) && s@ == k,
        Ok(CredentialView::Ticket(k)) => step matches AuthStep::ConsumeTicket(s) && s@ == k,
        Err(e) => step == AuthStep::Refuse(e),
    }
}

fn step_for_hook(a: AuthUser, plugins: usize) -> (step: AuthStep)
    ensures
        step == hook_step(a, plugins),
{
    if plugins > 0 {
        AuthStep::AskPlugins(a)
    } else {
        AuthStep::Admit(a)
    }
}

fn known_as(s: Subject, u: User, permissions: u64, role: String) -> (a: AuthUser)
    ensures
        a == admitted(s, u, permissions, role),
{
    AuthUser { user_id: s.user_id, username: u.username, permissions, role, api_key_name: s.api_key_name }
}

fn step_for_user(s: Subject, u: User, plugins: usize) -> (step: AuthStep)
    ensures
        step == user_step(s, u, plugins),
{
    if !u.enabled {
        return AuthStep::Refuse(Status::Unauthorized);
    }
    match s.perm {
        Some(bits) => {
            let role = match &s.role {
                Some(r) => r.clone(),
                None => u.role.clone(),
            };
            step_for_hook(known_as(s, u, bits, role), plugins)
        },
        None => AuthStep::ResolvePermissions(s, u),
    }
}

fn step_for_subject(c: &AuthCaches, s: Subject, now: u64, plugins: usize) -> (step: AuthStep)
    ensures
        step == subject_step(*c, s, now, plugins),
{
    match cache_fresh(&c.users, s.user_id.as_str(), now) {
        Some(CacheEntry::Account(u)) => step_for_user(s, u, plugins),
        _ => AuthStep::FindUser(s),
    }
}

fn subject(x: Claims) -> (s: Subject)
    ensures
        s == subject_of(x),
{
    Subject { user_id: x.sub, perm: x.perm, role: x.role, api_key_name: None }
}

fn step_for_claims(c: &AuthCaches, x: Claims, now: u64, plugins: usize) -> (step: AuthStep)
    ensures
        step == claims_step(*c, x, now, plugins),
{
    match cache_fresh(&c.revocations, x.jti.as_str(), now) {
        Some(CacheEntry::Revoked(revoked)) => if revoked {
            AuthStep::Refuse(Status::Unauthorized)
        } else {
            step_for_subject(c, subject(x), now, plugins)
        },
        _ => AuthStep::CheckRevoked(x),
    }
}

/// The first step for a request: `now` is the moment of the request, and
/// `plugins` the number of plugins that are running.
pub fn auth_middleware(c: &AuthCaches, r: &AuthRequest, now: u64, plugins: usize) -> (step: AuthStep)
    ensures
        is_first_step(step, *c, *r, now, plugins),
{
    match find_credential(r) {
        Ok(Credential::Token(t)) => match cache_fresh(&c.tokens, t.as_str(), now) {
            Some(CacheEntry::Token(x)) => step_for_claims(c, x, now, plugins),
            _ => AuthStep::VerifyToken(t),
        },
        Ok(Credential::ApiKey(k)) => AuthStep::VerifyApiKey(k),
        Ok(Credential::Ticket(k)) => AuthStep::ConsumeTicket(k),
        Err(e) => AuthStep::Refuse(e),
    }
}

/// What is remembered of tokens once one more was verified.
pub open spec fn tokens_after(
    m: Map<Seq<char>, (CacheEntry, u64)>,
    token: Seq<char>,
    x: Claims,
    now: u64,
    now_unix: i64,
) -> Map<Seq<char>, (CacheEntry, u64)> {
    let swept = if m.dom().len() >= AUTH_TOKEN_CACHE_MAX {
        live_at(m, now)
    } else {
        m
    };
    swept.insert(
        token,
        (CacheEntry::Token(x), (now + token_ttl(x.exp as int, now_unix as int) * 1_000_000_000) as u64),
    )
}

/// The step after a token was verified: what it says is remembered, until
/// the token expires or for [`AUTH_TOKEN_CACHE_TTL`]. A token that is not
/// valid is turned away.
pub fn token_verified(
    c: &mut AuthCaches,
    token: String,
    claims: Option<Claims>,
    now: u64,
    now_unix: i64,
    plugins: usize,
) -> (step: AuthStep)
    requires
        now <= LAST_MOMENT,
        claims matches Some(x) ==> i64::MIN <= x.exp - now_unix <= i64::MAX,
    ensures
        match claims {
            Some(x) => {
                &&& cached(final(c).tokens) == tokens_after(cached(old(c).tokens), token@, x, now, now_unix)
                &&& step == claims_step(*old(c), x, now, plugins)
            },
            None => final(c).tokens == old(c).tokens && step == AuthStep::Refuse(Status::Unauthorized),
        },
        final(c).revocations == old(c).revocations,
        final(c).users == old(c).users,
{
    let x = match claims {
        Some(x) => x,
        None => {
            return AuthStep::Refuse(Status::Unauthorized);
        },
    };
    let ttl: u64 = token_cache_ttl_secs(x.exp, now_unix);
    let until: u64 = now + ttl * 1_000_000_000;
    if cache_len(&c.tokens) >= AUTH_TOKEN_CACHE_MAX {
        cache_sweep(&mut c.tokens, now);
    }
    cache_insert(&mut c.tokens, token, CacheEntry::Token(copy_claims(&x)), until);
    step_for_claims(c, x, now, plugins)
}

/// The step after it was looked up whether a token was revoked: the answer is
/// remembered, and a revoked token is turned away.
pub fn revocation_known(c: &mut AuthCaches, x: Claims, revoked: bool, now: u64, plugins: usize) -> (step: AuthStep)
    requires
        now <= LAST_MOMENT,
    ensures
        cached(final(c).revocations) == cached(old(c).revocations).insert(
            x.jti@,
            (CacheEntry::Revoked(revoked), (now + AUTH_JTI_CACHE_NANOS) as u64),
        ),
        final(c).tokens == old(c).tokens,
        final(c).users == old(c).users,
        step == (if revoked {
            AuthStep::Refuse(Status::Unauthorized)
        } else {
            subject_step(*old(c), subject_of(x), now, plugins)
        }),
{
    cache_insert(&mut c.revocations, x.jti.clone(), CacheEntry::Revoked(revoked), now + AUTH_JTI_CACHE_NANOS);
    if revoked {
        AuthStep::Refuse(Status::Unauthorized)
    } else {
        step_for_subject(c, subject(x), now, plugins)
    }
}

/// The step after a key was verified: the user that it belongs to and its
/// name, or the status with which the request ends.
pub fn api_key_verified(
    c: &AuthCaches,
    answer: Result<(String, String), Status>,
    now: u64,
    plugins: usize,
) -> (step: AuthStep)
    ensures
        step == (match answer {
            Ok((id, name)) => subject_step(
                *c,
                Subject { user_id: id, perm: None, role: None, api_key_name: Some(name) },
                now,
                plugins,
            ),
            Err(e) => AuthStep::Refuse(e),
        }),
{
    match answer {
        Ok((id, name)) => step_for_subject(
            c,
            Subject { user_id: id, perm: None, role: None, api_key_name: Some(name) },
            now,
            plugins,
        ),
        Err(e) => AuthStep::Refuse(e),
    }
}

/// The step after a ticket was used up: it stands for the user that it was
/// made for, where there was such a ticket.
pub fn ticket_consumed(c: &AuthCaches, user_id: Option<String>, now: u64, plugins: usize) -> (step: AuthStep)
    ensures
        step == (match user_id {
            Some(id) => subject_step(
                *c,
                Subject { user_id: id, perm: None, role: None, api_key_name: None },
                now,
                plugins,
            ),
            None => AuthStep::Refuse(Status::Unauthorized),
        }),
{
    match user_id {
        Some(id) => step_for_subject(
            c,
            Subject { user_id: id, perm: None, role: None, api_key_name: None },
            now,
            plugins,
        ),
        None => AuthStep::Refuse(Status::Unauthorized),
    }
}

/// The step after a user was looked up: the user is remembered. Where there
/// is none the request is turned away, and a failure ends it with its status.
pub fn user_found(
    c: &mut AuthCaches,
    s: Subject,
    answer: Result<Option<User>, Status>,
    now: u64,
    plugins: usize,
) -> (step: AuthStep)
    requires
        now <= LAST_MOMENT,
    ensures
        final(c).tokens == old(c).tokens,
        final(c).revocations == old(c).revocations,
        match answer {
            Ok(Some(u)) => {
                &&& cached(final(c).users) == cached(old(c).users).insert(
                    s.user_id@,
                    (CacheEntry::Account(u), (now + AUTH_USER_CACHE_NANOS) as u64),
                )
                &&& step == user_step(s, u, plugins)
            },
            Ok(None) => final(c).users == old(c).users && step == AuthStep::Refuse(Status::Unauthorized),
            Err(e) => final(c).users == old(c).users && step == AuthStep::Refuse(e),
        },
{
    match answer {
        Ok(Some(u)) => {
            cache_insert(
                &mut c.users,
                s.user_id.clone(),
                CacheEntry::Account(copy_user(&u)),
                now + AUTH_USER_CACHE_NANOS,
            );
            step_for_user(s, u, plugins)
        },
        Ok(None) => AuthStep::Refuse(Status::Unauthorized),
        Err(e) => AuthStep::Refuse(e),
    }
}

/// The step after the permissions of a role were looked up: the permissions
/// and the name of the role, or nothing where that failed.
pub fn permissions_resolved(s: Subject, u: User, answer: Option<(u64, String)>, plugins: usize) -> (step: AuthStep)
    ensures
        step == (match answer {
            Some((bits, role)) => hook_step(admitted(s, u, bits, role), plugins),
            None => AuthStep::Refuse(Status::Internal),
        }),
{
    match answer {
        Some((bits, role)) => step_for_hook(known_as(s, u, bits, role), plugins),
        None => AuthStep::Refuse(Status::Internal),
    }
}

/// The step after the plugins were asked: each says whether it blocks the
/// request, and one that does is enough.
pub fn plugins_answered(a: AuthUser, blocks: &Vec<bool>) -> (step: AuthStep)
    ensures
        step == (if blocks@.contains(true) {
            AuthStep::Refuse(Status::Forbidden)
        } else {
            AuthStep::Admit(a)
        }),
{
    let mut i: usize = 0;
    while i < blocks.len()
        invariant
            i <= blocks@.len(),
            forall|k: int| 0 <= k < i ==> !blocks@[k],
        decreases blocks.len() - i,
    {
        if blocks[i] {
            assert(blocks@[i as int]);
            return AuthStep::Refuse(Status::Forbidden);
        }
        i = i + 1;
    }
    AuthStep::Admit(a)
}

/// A route is open to a user who has the permission that it needs.
pub fn perm_check(user: Option<&AuthUser>, needed: u64) -> (r: Result<(), Status>)
    ensures
        match user {
            None => r == Err::<(), Status>(Status::Unauthorized),
            Some(u) => if u.permissions & needed == needed {
                r is Ok
            } else {
                r == Err::<(), Status>(Status::Forbidden)
            },
        },
{
    match user {
        None => Err(Status::Unauthorized),
        Some(u) => if u.permissions & needed == needed {
            Ok(())
        } else {
            Err(Status::Forbidden)
        },
    }
}

// ---------------------------------------------------------------------------
// Laws
// ---------------------------------------------------------------------------

/// A disabled user gets nowhere, whatever the token carries.
pub proof fn disabled_users_are_turned_away(s: Subject, u: User, plugins: usize)
    requires
        !u.enabled,
    ensures
        user_step(s, u, plugins) == AuthStep::Refuse(Status::Unauthorized),
{
}

/// A token that is remembered as revoked is turned away.
pub proof fn revoked_tokens_are_turned_away(c: AuthCaches, x: Claims, now: u64, plugins: usize)
    requires
        known_revocation(c, x.jti@, now) == Some(true),
    ensures
        claims_step(c, x, now, plugins) == AuthStep::Refuse(Status::Unauthorized),
{
}

/// What was looked up of a token's revocation is what the next request with
/// it finds, until it is forgotten.
pub proof fn revocation_is_remembered(before: AuthCaches, after: AuthCaches, x: Claims, revoked: bool, now: u64, later: u64)
    requires
        now <= LAST_MOMENT,
        cached(after.revocations) == cached(before.revocations).insert(
            x.jti@,
            (CacheEntry::Revoked(revoked), (now + AUTH_JTI_CACHE_NANOS) as u64),
        ),
    ensures
        later < now + AUTH_JTI_CACHE_NANOS ==> known_revocation(after, x.jti@, later) == Some(revoked),
        later >= now + AUTH_JTI_CACHE_NANOS ==> known_revocation(after, x.jti@, later) is None,
{
}

/// A user who was looked up is known for five seconds and no longer, so that
/// a change of the user takes effect by then.
pub proof fn user_is_remembered(before: AuthCaches, after: AuthCaches, id: Seq<char>, u: User, now: u64, later: u64)
    requires
        now <= LAST_MOMENT,
        cached(after.users) == cached(before.users).insert(
            id,
            (CacheEntry::Account(u), (now + AUTH_USER_CACHE_NANOS) as u64),
        ),
    ensures
        later < now + AUTH_USER_CACHE_NANOS ==> known_user(after, id, later) == Some(u),
        later >= now + AUTH_USER_CACHE_NANOS ==> known_user(after, id, later) is None,
{
}

/// A token that was expired when it was verified is never served from memory.
pub proof fn expired_token_is_not_served(
    before: AuthCaches,
    after: AuthCaches,
    token: Seq<char>,
    x: Claims,
    now: u64,
    now_unix: i64,
    later: u64,
)
    requires
        now <= LAST_MOMENT,
        now <= later,
        x.exp <= now_unix,
        cached(after.tokens) == tokens_after(cached(before.tokens), token, x, now, now_unix),
    ensures
        known_claims(after, token, later) is None,
{
}

/// A token is remembered for what it has left, a minute at most, and not at all once it has
/// expired.
pub proof fn tokens_are_remembered_a_minute(exp_unix: int, now_unix: int)
    ensures
        0 <= token_ttl(exp_unix, now_unix) <= 60,
        exp_unix <= now_unix ==> token_ttl(exp_unix, now_unix) == 0,
        0 <= exp_unix - now_unix <= 60 ==> token_ttl(exp_unix, now_unix) == exp_unix - now_unix,
        exp_unix - now_unix > 60 ==> token_ttl(exp_unix, now_unix) == 60,
{
}

/// Of the pieces of a query the first that starts with the prefix counts, and what stands
/// behind it is its value; pieces before it that do not start so do not matter.
pub proof fn first_piece_with_the_prefix_counts(a: Seq<Seq<char>>, b: Seq<Seq<char>>, prefix: Seq<char>,
    value: Seq<char>, piece: Seq<char>)
    ensures
        first_with_prefix(Seq::<Seq<char>>::empty(), prefix) is None,
        first_with_prefix(a, prefix) is Some ==> first_with_prefix(a + b, prefix) == first_with_prefix(a, prefix),
        first_with_prefix(a, prefix) is None ==> first_with_prefix(a + b, prefix) == first_with_prefix(b, prefix),
        first_with_prefix(seq![prefix + value], prefix) == Some(value),
        !has_prefix(piece, prefix) ==> first_with_prefix(seq![piece], prefix) is None,
    decreases a.len(),
{
    reveal_with_fuel(first_with_prefix, 2);
    assert((prefix + value).skip(prefix.len() as int) =~= value);
    assert((prefix + value).take(prefix.len() as int) =~= prefix);
    assert(seq![piece].skip(1) =~= Seq::<Seq<char>>::empty());
    if a.len() == 0 {
        assert(a + b =~= b);
    } else {
        assert((a + b)[0] == a[0]);
        assert((a + b).skip(1) =~= a.skip(1) + b);
        first_piece_with_the_prefix_counts(a.skip(1), b, prefix, value, piece);
    }
}

/// A query that is nothing but a ticket gives it where it is all hexadecimal, and none
/// otherwise; without a query there is none.
pub proof fn tickets_are_hexadecimal(t: Seq<char>, i: int)
    ensures
        ticket_of(None) is None,
        !t.contains('&') && (forall|k: int| 0 <= k < t.len() ==> '0' <= (#[trigger] t[k]) <= '9' || 'a' <= t[k] <= 'f'
            || 'A' <= t[k] <= 'F') ==> ticket_of(Some("ticket="@ + t)) == Some(t),
        !t.contains('&') && 0 <= i < t.len() && !is_hex(t[i]) ==> ticket_of(Some("ticket="@ + t)) is None,
{
    let q = "ticket="@ + t;
    reveal_strlit("ticket=");
    if !t.contains('&') {
        if q.contains('&') {
            let k = choose|k: int| 0 <= k < q.len() && q[k] == '&';
            if k < "ticket="@.len() {
                assert("ticket="@[k] == '&');
            } else {
                assert(t[k - "ticket="@.len()] == '&');
            }
        }
        crate::text::split_of_join(seq![q], '&');
        assert(crate::text::join(seq![q], seq!['&']) == q);
        first_piece_with_the_prefix_counts(Seq::<Seq<char>>::empty(), Seq::<Seq<char>>::empty(), "ticket="@, t, t);
    }
}

/// The methods that change nothing are those that read, and no other is.
pub proof fn only_reading_is_safe(m: Seq<char>)
    ensures
        is_safe(seq!['G', 'E', 'T']),
        is_safe(seq!['H', 'E', 'A', 'D']),
        is_safe(seq!['O', 'P', 'T', 'I', 'O', 'N', 'S']),
        m != "GET"@ && m != "HEAD"@ && m != "OPTIONS"@ ==> !is_safe(m),
{
    reveal_strlit("GET");
    reveal_strlit("HEAD");
    reveal_strlit("OPTIONS");
    assert("GET"@ =~= seq!['G', 'E', 'T']);
    assert("HEAD"@ =~= seq!['H', 'E', 'A', 'D']);
    assert("OPTIONS"@ =~= seq!['O', 'P', 'T', 'I', 'O', 'N', 'S']);
}

/// Behind `Bearer ` stands a token and behind `ApiKey ` a key; any other header names none.
pub proof fn header_names_its_credential(t: Seq<char>)
    ensures
        header_credential(None) is None,
        header_credential(Some("Bearer "@ + t)) == Some(CredentialView::Token(t)),
        header_credential(Some("ApiKey "@ + t)) == Some(CredentialView::ApiKey(t)),
        !has_prefix(t, "Bearer "@) && !has_prefix(t, "ApiKey "@) ==> header_credential(Some(t)) is None,
{
    assert(("Bearer "@ + t).skip("Bearer "@.len() as int) =~= t);
    assert(("Bearer "@ + t).take("Bearer "@.len() as int) =~= "Bearer "@);
    assert(("ApiKey "@ + t).skip("ApiKey "@.len() as int) =~= t);
    assert(("ApiKey "@ + t).take("ApiKey "@.len() as int) =~= "ApiKey "@);
    reveal_strlit("Bearer ");
    reveal_strlit("ApiKey ");
    assert(("ApiKey "@ + t)[0] == 'A');
    if has_prefix("ApiKey "@ + t, "Bearer "@) {
        assert(("ApiKey "@ + t)[0] == "Bearer "@[0]);
    }
}

/// A header that names a credential decides. Without a header and a ticket a cookie does,
/// where the request only reads or carries the header against forgery. A ticket decides where
/// the header names none. With none of them the request is not authorised.
pub proof fn credentials_are_found_in_order(r: AuthRequest, t: Seq<char>)
    ensures
        header_of(r) is Some && header_credential(header_of(r)) is Some
            ==> credential_of(r) == Ok::<CredentialView, Status>(header_credential(header_of(r))->0),
        r.authorization is None ==> header_of(r) is None,
        r.authorization matches Some(b) ==> header_of(r) == header_text(b@),
        header_of(r) is None && ticket_of(option_view(r.query)) is None
            && first_value(cookie_pairs(r.cookies@), "aifw_at"@) == Some(t) && (is_safe(r.method@)
            || r.has_csrf_header) ==> credential_of(r) == Ok::<CredentialView, Status>(CredentialView::Token(t)),
        header_of(r) is None && ticket_of(option_view(r.query)) is None
            && first_value(cookie_pairs(r.cookies@), "aifw_at"@) == Some(t) && !is_safe(r.method@)
            && !r.has_csrf_header ==> credential_of(r) == Err::<CredentialView, Status>(Status::Forbidden),
        header_credential(header_of(r)) is None && ticket_of(option_view(r.query)) == Some(t)
            ==> credential_of(r) == Ok::<CredentialView, Status>(CredentialView::Ticket(t)),
        header_credential(header_of(r)) is None && ticket_of(option_view(r.query)) is None && (header_of(r) is Some
            || first_value(cookie_pairs(r.cookies@), "aifw_at"@) is None)
            ==> credential_of(r) == Err::<CredentialView, Status>(Status::Unauthorized),
{
}

/// A token that is not remembered is verified, a key is verified and a ticket is used up, each
/// by its own text; a request that is refused is refused as its credential was.
pub proof fn steps_follow_the_credential(step: AuthStep, c: AuthCaches, r: AuthRequest, now: u64, plugins: usize,
    t: Seq<char>, e: Status)
    requires
        is_first_step(step, c, r, now, plugins),
    ensures
        credential_of(r) == Ok::<CredentialView, Status>(CredentialView::Token(t)) && known_claims(c, t, now) is None
            ==> step is VerifyToken && step->VerifyToken_0@ == t,
        credential_of(r) == Ok::<CredentialView, Status>(CredentialView::ApiKey(t)) ==> step is VerifyApiKey
            && step->VerifyApiKey_0@ == t,
        credential_of(r) == Ok::<CredentialView, Status>(CredentialView::Ticket(t)) ==> step is ConsumeTicket
            && step->ConsumeTicket_0@ == t,
        credential_of(r) == Err::<CredentialView, Status>(e) ==> step == AuthStep::Refuse(e),
{
}

/// A token that is remembered, whose revocation and whose user are remembered too, is decided
/// at once: one not revoked, of an enabled user, with permissions of its own admits its user
/// under these, in the role of the token or else of the user. What is not remembered is
/// looked up.
pub proof fn remembered_tokens_skip_what_is_known(step: AuthStep, c: AuthCaches, r: AuthRequest, now: u64,
    t: Seq<char>, x: Claims)
    requires
        is_first_step(step, c, r, now, 0),
        credential_of(r) == Ok::<CredentialView, Status>(CredentialView::Token(t)),
        known_claims(c, t, now) == Some(x),
    ensures
        known_revocation(c, x.jti@, now) is None ==> step == AuthStep::CheckRevoked(x),
        known_revocation(c, x.jti@, now) == Some(true) ==> step == AuthStep::Refuse(Status::Unauthorized),
        known_revocation(c, x.jti@, now) == Some(false) && known_user(c, x.sub@, now) is None ==> step is FindUser
            && step->FindUser_0.user_id == x.sub && step->FindUser_0.perm == x.perm && step->FindUser_0.role == x.role
            && step->FindUser_0.api_key_name is None,
        known_revocation(c, x.jti@, now) == Some(false) ==> (known_user(c, x.sub@, now) matches Some(u) ==> !u.enabled
            ==> step == AuthStep::Refuse(Status::Unauthorized)),
        known_revocation(c, x.jti@, now) == Some(false) && x.perm is None
            ==> (known_user(c, x.sub@, now) matches Some(u) ==> u.enabled ==> step is ResolvePermissions
            && step->ResolvePermissions_1 == u && step->ResolvePermissions_0.user_id == x.sub),
        known_revocation(c, x.jti@, now) == Some(false) && x.perm is Some
            ==> (known_user(c, x.sub@, now) matches Some(u) ==> u.enabled ==> step is Admit
            && step->Admit_0.user_id == x.sub && step->Admit_0.username == u.username
            && step->Admit_0.permissions == x.perm->0 && (x.role is Some ==> step->Admit_0.role == x.role->0)
            && (x.role is None ==> step->Admit_0.role == u.role) && step->Admit_0.api_key_name is None),
{
}

/// A user is admitted at once where no plugin runs, and otherwise the plugins are asked about
/// that user first.
pub proof fn plugins_are_asked_where_there_are_any(a: AuthUser, plugins: usize)
    ensures
        plugins == 0 ==> hook_step(a, plugins) == AuthStep::Admit(a),
        plugins > 0 ==> hook_step(a, plugins) == AuthStep::AskPlugins(a),
{
}

/// Who is admitted has the identifier and the key of the subject, the name of the user and the
/// permissions and role that were found.
pub proof fn admitted_user_is_the_subject(s: Subject, u: User, permissions: u64, role: String)
    ensures
        admitted(s, u, permissions, role).user_id == s.user_id,
        admitted(s, u, permissions, role).username == u.username,
        admitted(s, u, permissions, role).permissions == permissions,
        admitted(s, u, permissions, role).role == role,
        admitted(s, u, permissions, role).api_key_name == s.api_key_name,
{
}

/// What is remembered counts until its time is over, and only as what it was remembered as.
pub proof fn memory_answers_by_its_own_key(c: AuthCaches, k: Seq<char>, now: u64, x: Claims, b: bool, u: User,
    until: u64)
    ensures
        cached(c.tokens).dom().contains(k) && cached(c.tokens)[k] == (CacheEntry::Token(x), until)
            ==> known_claims(c, k, now) == (if until > now { Some(x) } else { None }),
        cached(c.revocations).dom().contains(k) && cached(c.revocations)[k] == (CacheEntry::Revoked(b), until)
            ==> known_revocation(c, k, now) == (if until > now { Some(b) } else { None }),
        cached(c.users).dom().contains(k) && cached(c.users)[k] == (CacheEntry::Account(u), until)
            ==> known_user(c, k, now) == (if until > now { Some(u) } else { None }),
        !cached(c.tokens).dom().contains(k) ==> known_claims(c, k, now) is None,
        !cached(c.revocations).dom().contains(k) ==> known_revocation(c, k, now) is None,
        !cached(c.users).dom().contains(k) ==> known_user(c, k, now) is None,
{
}

/// A verified token is remembered under its text for what it has left, a minute at most; what
/// still counts stays remembered, and what no longer does is dropped once ten thousand are.
pub proof fn verified_token_is_remembered(m: Map<Seq<char>, (CacheEntry, u64)>, token: Seq<char>, x: Claims, now: u64,
    now_unix: i64, other: Seq<char>)
    requires
        now <= LAST_MOMENT,
    ensures
        tokens_after(m, token, x, now, now_unix).dom().contains(token),
        tokens_after(m, token, x, now, now_unix)[token].0 == CacheEntry::Token(x),
        x.exp - now_unix > 60 ==> tokens_after(m, token, x, now, now_unix)[token].1 == now + 60_000_000_000,
        0 <= x.exp - now_unix <= 60 ==> tokens_after(m, token, x, now,
            now_unix)[token].1 == now + (x.exp - now_unix) * 1_000_000_000,
        other != token && m.dom().contains(other) && m[other].1 > now
            ==> tokens_after(m, token, x, now, now_unix).dom().contains(other)
            && tokens_after(m, token, x, now, now_unix)[other] == m[other],
        other != token && !m.dom().contains(other) ==> !tokens_after(m, token, x, now, now_unix).dom().contains(other),
        other != token && m.dom().contains(other) && m[other].1 <= now
            ==> (tokens_after(m, token, x, now, now_unix).dom().contains(other) <==> m.dom().len() < 10_000),
{
}

/// A credential stands for its text, as what it is.
pub proof fn credentials_hold_their_text(op: Credential)
    ensures
        op matches Credential::Token(t) ==> op@ == (CredentialView::Token(t@)),
        op matches Credential::ApiKey(t) ==> op@ == (CredentialView::ApiKey(t@)),
        op matches Credential::Ticket(t) ==> op@ == (CredentialView::Ticket(t@)),
{
}

/// Nobody is not authorised; a user may where every bit that is needed is one of the user's, and
/// is forbidden otherwise.
pub proof fn permissions_are_all_needed(u: &AuthUser, needed: u64, r: Result<(), Status>)
    ensures
        call_ensures(perm_check, (None::<&AuthUser>, needed), r) ==> r == Err::<(), Status>(Status::Unauthorized),
        call_ensures(perm_check, (Some(u), needed), r) ==> (r is Ok <==> u.permissions & needed == needed),
        call_ensures(perm_check, (Some(u), needed), r) ==> (r matches Err(e) ==> e == Status::Forbidden),
{
}

/// Permissions that were found admit the user under them; where none were found the server has
/// failed. A plugin that blocks forbids, and where none does the user is admitted.
pub proof fn resolved_permissions_admit(s: Subject, u: User, bits: u64, role: String, a: AuthUser, blocks: &Vec<bool>,
    step: AuthStep, i: int)
    ensures
        call_ensures(permissions_resolved, (s, u, Some((bits, role)), 0usize), step) ==> step is Admit
            && step->Admit_0.permissions == bits && step->Admit_0.role == role && step->Admit_0.user_id == s.user_id
            && step->Admit_0.username == u.username && step->Admit_0.api_key_name == s.api_key_name,
        call_ensures(permissions_resolved, (s, u, None::<(u64, String)>, 0usize), step)
            ==> step == AuthStep::Refuse(Status::Internal),
        call_ensures(plugins_answered, (a, blocks), step) && 0 <= i < blocks@.len() && blocks@[i]
            ==> step == AuthStep::Refuse(Status::Forbidden),
        call_ensures(plugins_answered, (a, blocks), step) && (forall|k: int| 0 <= k < blocks@.len()
            ==> !#[trigger] blocks@[k]) ==> step == AuthStep::Admit(a),
{
}

/// A key stands for its user and carries its name, a ticket stands for its user alone, and
/// neither carries permissions; one that is not known is turned away.
pub proof fn keys_and_tickets_name_their_user(c: &AuthCaches, id: String, name: String, now: u64, plugins: usize,
    e: Status, step: AuthStep)
    ensures
        call_ensures(api_key_verified, (c, Ok::<(String, String), Status>((id, name)), now, plugins), step)
            && known_user(*c, id@, now) is None ==> step is FindUser && step->FindUser_0.user_id == id
            && step->FindUser_0.api_key_name == Some(name) && step->FindUser_0.perm is None
            && step->FindUser_0.role is None,
        call_ensures(api_key_verified, (c, Err::<(String, String), Status>(e), now, plugins), step)
            ==> step == AuthStep::Refuse(e),
        call_ensures(ticket_consumed, (c, Some(id), now, plugins), step) && known_user(*c, id@, now) is None
            ==> step is FindUser && step->FindUser_0.user_id == id && step->FindUser_0.api_key_name is None
            && step->FindUser_0.perm is None && step->FindUser_0.role is None,
        call_ensures(ticket_consumed, (c, None::<String>, now, plugins), step)
            ==> step == AuthStep::Refuse(Status::Unauthorized),
        call_ensures(ticket_consumed, (c, Some(id), now, plugins), step) ==> (known_user(*c, id@, now) matches Some(u)
            ==> !u.enabled ==> step == AuthStep::Refuse(Status::Unauthorized)),
{
}

/// What is learnt of a token, of its revocation and of its user is remembered, each in its own
/// place and for its own time, and nothing else is touched; what is not known is turned away.
pub proof fn answers_are_remembered(token: String, x: Claims, revoked: bool, s: Subject, u: User, now: u64,
    now_unix: i64, plugins: usize, e: Status, step: AuthStep)
    ensures
        forall|l: &mut AuthCaches| #[trigger] call_ensures(token_verified, (l, token, Some(x), now, now_unix,
            plugins), step) ==> cached(final(l).tokens).dom().contains(token@)
            && cached(final(l).tokens)[token@].0 == CacheEntry::Token(x) && final(l).revocations == (*l).revocations
            && final(l).users == (*l).users && step == claims_step(*l, x, now, plugins),
        forall|l: &mut AuthCaches| #[trigger] call_ensures(token_verified, (l, token, None::<Claims>, now, now_unix,
            plugins), step) ==> final(l).tokens == (*l).tokens && step == AuthStep::Refuse(Status::Unauthorized),
        now <= LAST_MOMENT ==> forall|l: &mut AuthCaches|
            #[trigger] call_ensures(revocation_known, (l, x, revoked, now, plugins), step)
            ==> cached(final(l).revocations).dom().contains(x.jti@)
            && cached(final(l).revocations)[x.jti@].0 == CacheEntry::Revoked(revoked)
            && cached(final(l).revocations)[x.jti@].1 == now + 60_000_000_000 && final(l).tokens == (*l).tokens
            && final(l).users == (*l).users && (revoked ==> step == AuthStep::Refuse(Status::Unauthorized)),
        now <= LAST_MOMENT ==> forall|l: &mut AuthCaches|
            #[trigger] call_ensures(user_found, (l, s, Ok::<Option<User>, Status>(Some(u)), now, plugins), step)
            ==> cached(final(l).users).dom().contains(s.user_id@)
            && cached(final(l).users)[s.user_id@].0 == CacheEntry::Account(u)
            && cached(final(l).users)[s.user_id@].1 == now + 5_000_000_000 && final(l).tokens == (*l).tokens
            && final(l).revocations == (*l).revocations && (!u.enabled
            ==> step == AuthStep::Refuse(Status::Unauthorized)),
        forall|l: &mut AuthCaches| #[trigger] call_ensures(user_found, (l, s, Ok::<Option<User>,
            Status>(None::<User>), now, plugins), step) ==> final(l).users == (*l).users
            && step == AuthStep::Refuse(Status::Unauthorized),
        forall|l: &mut AuthCaches| #[trigger] call_ensures(user_found, (l, s, Err::<Option<User>, Status>(e), now,
            plugins), step) ==> final(l).users == (*l).users && step == AuthStep::Refuse(e),
{
}

} // verus!
