//! Logging in and out.

use vstd::hash_set::StringHashSet;
use vstd::prelude::*;
use vstd::string::*;

use crate::auth::cache::{cache_remove, cached};
use crate::auth::cookies::{
    cookie_pairs, cookie_value, first_value, header_str, header_text, TokenPair, ACCESS_COOKIE, REFRESH_COOKIE,
};
use crate::auth::keys::{is_replication_key, key_name_allowed};
use crate::auth::limiter::{bumped, LoginRateLimiter};
use crate::auth::middleware::{known_revocation, AuthCaches};
use crate::auth::password::{is_password, validate_password};
use crate::identifiers::{answer_change, change_answer, require_uuid, said, uuid_text};
use crate::kv::{bool_str, bool_text, option_view, put, rows, KeyValue};
use crate::lists::{append_holds, push_holds};
use crate::number::{dec, dec_int, fmt_i64, fmt_u64};
use crate::status::{MessageResponse, Status};
use crate::text::{
    cat2, cat3, has_prefix, lowercase, lowercase_text, same, split, split_pieces, split_text, strip_prefix, trim,
    trimmed, views,
};

verus! {

// ---------------------------------------------------------------------------
// Who asks
// ---------------------------------------------------------------------------

/// The address that a proxy says a request comes from: the first of the list
/// in the header, where the header is text.
pub open spec fn forwarded_for(header: Option<Seq<u8>>) -> Option<Seq<char>> {
    match header {
        Some(b) => match header_text(b) {
            Some(t) => Some(trim(split(t, ',')[0])),
            None => None,
        },
        None => None,
    }
}

/// The bytes of an optional header.
pub open spec fn bytes_of(header: Option<Vec<u8>>) -> Option<Seq<u8>> {
    match header {
        Some(b) => Some(b@),
        None => None,
    }
}

/// The address that a request is counted under: the one that the header
/// gives, else one that is made up.
pub fn client_key(header: &Option<Vec<u8>>, made_up: String) -> (r: String)
    ensures
        r@ == counted_ip(bytes_of(*header), made_up@),
{
    let text = match header {
        Some(b) => header_str(b.as_slice()),
        None => None,
    };
    match text {
        Some(t) => {
            let v = split_text(t.as_str(), ',');
            proof {
                split_pieces(t@, ',');
                assert(views(v@).len() == v@.len());
                assert(views(v@)[0] == v@[0]@);
            }
            trimmed(v[0].as_str())
        },
        None => made_up,
    }
}

/// What a request is counted under.
#[derive(Clone, Debug)]
pub struct LimitKeys {
    pub ip: String,
    pub user: String,
}

/// The address that a request is counted under.
pub open spec fn counted_ip(header: Option<Seq<u8>>, made_up: Seq<char>) -> Seq<char> {
    match forwarded_for(header) {
        Some(ip) => ip,
        None => made_up,
    }
}

/// The first step of a login: one too many is turned away before anything
/// else is looked at. A login counts under the address, or the name where
/// none is known; and under the name, in lower case.
pub fn login(limiter: &LoginRateLimiter, header: &Option<Vec<u8>>, username: &str, now: i64) -> (r: Result<LimitKeys, Status>)
    requires
        limiter.is_valid(),
    ensures
        r is Ok <==> !limiter.blocks(
            counted_ip(bytes_of(*header), "user:"@ + username@),
            lowercase(username@),
            now,
        ),
        r matches Ok(k) ==> k.ip@ == counted_ip(bytes_of(*header), "user:"@ + username@) && k.user@ == lowercase(
            username@,
        ),
        r matches Err(e) ==> e == Status::TooManyRequests,
{
    let ip = client_key(header, cat2("user:", username));
    let user = lowercase_text(username);
    if limiter.is_blocked(ip.as_str(), user.as_str(), now) {
        return Err(Status::TooManyRequests);
    }
    Ok(LimitKeys { ip, user })
}

/// What is known of the user of a login.
#[derive(Clone, Copy, Debug, PartialEq, Eq, Structural)]
pub struct LoginUser {
    pub enabled: bool,
    pub totp_enabled: bool,
}

/// How a login ends.
#[derive(Clone, Copy, Debug, PartialEq, Eq, Structural)]
pub enum LoginOutcome {
    /// There is no such user.
    Unknown,
    /// The user is disabled; that goes to the audit log.
    Disabled,
    /// The password is wrong; that goes to the audit log.
    WrongPassword,
    /// A second factor is needed.
    SecondFactor,
    /// The user gets tokens.
    Tokens,
}

/// How a login ends. A user without a second factor has to set one up where
/// everybody needs one.
pub open spec fn login_outcome(user: Option<LoginUser>, password_valid: bool, require_totp: bool) -> LoginOutcome {
    match user {
        None => LoginOutcome::Unknown,
        Some(u) => if !u.enabled {
            LoginOutcome::Disabled
        } else if !password_valid {
            LoginOutcome::WrongPassword
        } else if u.totp_enabled || require_totp {
            LoginOutcome::SecondFactor
        } else {
            LoginOutcome::Tokens
        },
    }
}

/// What the audit log says of a login.
pub open spec fn login_note(o: LoginOutcome) -> Option<Seq<char>> {
    match o {
        LoginOutcome::Disabled => Some("login_denied_disabled"@),
        LoginOutcome::WrongPassword => Some("login_failed"@),
        LoginOutcome::Tokens => Some("login_success"@),
        _ => None,
    }
}

/// The end of a login: a wrong password counts against the address and the
/// name, and a right one takes back what counted against them.
pub fn finish_login(
    limiter: &mut LoginRateLimiter,
    keys: &LimitKeys,
    user: Option<LoginUser>,
    password_valid: bool,
    require_totp: bool,
    now: i64,
) -> (o: LoginOutcome)
    requires
        old(limiter).is_valid(),
    ensures
        final(limiter).is_valid(),
        final(limiter).max() == old(limiter).max(),
        final(limiter).window() == old(limiter).window(),
        o == login_outcome(user, password_valid, require_totp),
        match o {
            LoginOutcome::Unknown | LoginOutcome::Disabled => final(limiter).ips() == old(limiter).ips()
                && final(limiter).users() == old(limiter).users(),
            LoginOutcome::WrongPassword => {
                &&& final(limiter).ips() == bumped(old(limiter).ips(), keys.ip@, now, old(limiter).window())
                &&& final(limiter).users() == bumped(old(limiter).users(), keys.user@, now, old(limiter).window())
            },
            LoginOutcome::SecondFactor | LoginOutcome::Tokens => {
                &&& final(limiter).ips() == old(limiter).ips().remove(keys.ip@)
                &&& final(limiter).users() == old(limiter).users().remove(keys.user@)
            },
        },
{
    let u = match user {
        Some(u) => u,
        None => {
            return LoginOutcome::Unknown;
        },
    };
    if !u.enabled {
        return LoginOutcome::Disabled;
    }
    if !password_valid {
        let _blocked = limiter.record_failure(keys.ip.as_str(), keys.user.as_str(), now);
        return LoginOutcome::WrongPassword;
    }
    limiter.clear(keys.ip.as_str(), keys.user.as_str());
    if u.totp_enabled || require_totp {
        LoginOutcome::SecondFactor
    } else {
        LoginOutcome::Tokens
    }
}

/// What the audit log says of a login.
pub fn login_audit(o: LoginOutcome) -> (r: Option<&'static str>)
    ensures
        match login_note(o) {
            Some(t) => r matches Some(s) && s@ == t,
            None => r is None,
        },
{
    match o {
        LoginOutcome::Disabled => Some("login_denied_disabled"),
        LoginOutcome::WrongPassword => Some("login_failed"),
        LoginOutcome::Tokens => Some("login_success"),
        _ => None,
    }
}

/// The status of a login that was turned away.
pub fn login_status(o: LoginOutcome) -> (r: Option<Status>)
    ensures
        r == (match o {
            LoginOutcome::Unknown | LoginOutcome::Disabled | LoginOutcome::WrongPassword => Some(Status::Unauthorized),
            LoginOutcome::SecondFactor | LoginOutcome::Tokens => None,
        }),
{
    match o {
        LoginOutcome::Unknown | LoginOutcome::Disabled | LoginOutcome::WrongPassword => Some(Status::Unauthorized),
        LoginOutcome::SecondFactor | LoginOutcome::Tokens => None,
    }
}

/// Nobody gets tokens by a password alone where a second factor is set up or
/// asked for, nor with a wrong password, nor disabled.
pub proof fn tokens_take_everything(user: Option<LoginUser>, password_valid: bool, require_totp: bool)
    ensures
        login_outcome(user, password_valid, require_totp) == LoginOutcome::Tokens <==> (user matches Some(u) && u.enabled
            && !u.totp_enabled && password_valid && !require_totp),
{
}

/// What is done next in a login with a second factor.
#[derive(Clone, Copy, Debug, PartialEq, Eq, Structural)]
pub enum TotpStep {
    /// The code may be one of those for an emergency: try it, and use it up.
    TryRecovery,
    Refuse,
    Tokens,
}

/// A login with a second factor: the password comes first, then the code.
/// `code_valid` is nothing where the user has no second factor.
pub fn totp_login(enabled: Option<bool>, password_valid: bool, code_valid: Option<bool>) -> (r: TotpStep)
    ensures
        r == (if enabled != Some(true) || !password_valid {
            TotpStep::Refuse
        } else if code_valid == Some(true) {
            TotpStep::Tokens
        } else {
            TotpStep::TryRecovery
        }),
{
    match enabled {
        Some(true) => {},
        _ => {
            return TotpStep::Refuse;
        },
    }
    if !password_valid {
        return TotpStep::Refuse;
    }
    match code_valid {
        Some(true) => TotpStep::Tokens,
        _ => TotpStep::TryRecovery,
    }
}

/// The end of such a login, once the code was tried.
pub fn recovery_tried(used: bool) -> (r: TotpStep)
    ensures
        r == (if used {
            TotpStep::Tokens
        } else {
            TotpStep::Refuse
        }),
{
    if used {
        TotpStep::Tokens
    } else {
        TotpStep::Refuse
    }
}

/// Whether a second factor may be switched on or off: not without one, nor
/// with a wrong code. `code_valid` is nothing where there is none.
pub fn totp_verify(code_valid: Option<bool>) -> (r: Result<(), Status>)
    ensures
        match code_valid {
            None => r == Err::<(), Status>(Status::BadRequest),
            Some(false) => r == Err::<(), Status>(Status::Unauthorized),
            Some(true) => r is Ok,
        },
{
    match code_valid {
        None => Err(Status::BadRequest),
        Some(false) => Err(Status::Unauthorized),
        Some(true) => Ok(()),
    }
}

// ---------------------------------------------------------------------------
// Sessions
// ---------------------------------------------------------------------------

/// The refresh token of a request: the one in its body, else the one in the
/// cookie.
pub open spec fn refresh_of(body: Option<Seq<char>>, cookies: Seq<Vec<u8>>) -> Option<Seq<char>> {
    match body {
        Some(t) => Some(t),
        None => first_value(cookie_pairs(cookies), REFRESH_COOKIE@),
    }
}

/// The refresh token of a request: without one it is a bad request.
pub fn refresh_source(body: Option<String>, cookies: &Vec<Vec<u8>>) -> (r: Result<String, Status>)
    ensures
        match refresh_of(option_view(body), cookies@) {
            Some(t) => r matches Ok(s) && s@ == t,
            None => r == Err::<String, Status>(Status::BadRequest),
        },
{
    match body {
        Some(t) => Ok(t),
        None => match cookie_value(cookies, REFRESH_COOKIE) {
            Some(t) => Ok(t),
            None => Err(Status::BadRequest),
        },
    }
}

/// The first step of a renewal: one too many is turned away. `prefix` is the
/// start of the token; a renewal counts under the address, or the start of the
/// token where none is known, and under the start of the token.
pub fn refresh_token(limiter: &LoginRateLimiter, header: &Option<Vec<u8>>, prefix: &str, now: i64) -> (r: Result<
    LimitKeys,
    Status,
>)
    requires
        limiter.is_valid(),
    ensures
        r is Ok <==> !limiter.blocks(counted_ip(bytes_of(*header), "rfx:"@ + prefix@), prefix@, now),
        r matches Ok(k) ==> k.ip@ == counted_ip(bytes_of(*header), "rfx:"@ + prefix@) && k.user@ == prefix@,
        r matches Err(e) ==> e == Status::TooManyRequests,
{
    let ip = client_key(header, cat2("rfx:", prefix));
    if limiter.is_blocked(ip.as_str(), prefix, now) {
        return Err(Status::TooManyRequests);
    }
    Ok(LimitKeys { ip, user: prefix.to_owned() })
}

/// Tokens that were used up: each one works once. They are remembered for as
/// long as the server runs.
pub struct SpentTokens {
    tokens: StringHashSet,
}

impl View for SpentTokens {
    type V = Set<Seq<char>>;

    closed spec fn view(&self) -> Set<Seq<char>> {
        self.tokens@
    }
}

impl SpentTokens {
    /// None was used up yet.
    pub fn new() -> (s: SpentTokens)
        ensures
            s@ == Set::<Seq<char>>::empty(),
    {
        SpentTokens { tokens: StringHashSet::new() }
    }

    /// Whether the token was used up.
    pub fn holds(&self, token: &str) -> (r: bool)
        ensures
            r == self@.contains(token@),
    {
        self.tokens.contains(token)
    }

    /// The token is used up.
    pub fn spend(&mut self, token: &str)
        ensures
            final(self)@ == old(self)@.insert(token@),
    {
        let _new = self.tokens.insert(token.to_owned());
    }
}

/// The token renews a session: it was not used up, and other tokens stand in its
/// place.
pub open spec fn renews(spent: Set<Seq<char>>, presented: Seq<char>, tokens: Option<TokenPair>) -> bool {
    !spent.contains(presented) && (tokens matches Some(t) && t.refresh_token@ != presented)
}

/// The end of a renewal: `tokens` is what stands in the place of the token that
/// was presented, and nothing where the token was not accepted. A token that
/// does not renew the session counts as a failure; one that does is used up,
/// and takes back what counted.
pub fn finish_refresh(
    limiter: &mut LoginRateLimiter,
    spent: &mut SpentTokens,
    keys: &LimitKeys,
    presented: &str,
    tokens: Option<&TokenPair>,
    now: i64,
) -> (r: Result<(), Status>)
    requires
        old(limiter).is_valid(),
    ensures
        final(limiter).is_valid(),
        final(limiter).max() == old(limiter).max(),
        final(limiter).window() == old(limiter).window(),
        ({
            let renewed = renews(
                old(spent)@,
                presented@,
                match tokens {
                    Some(t) => Some(*t),
                    None => None,
                },
            );
            &&& renewed ==> {
                &&& r is Ok
                &&& final(spent)@ == old(spent)@.insert(presented@)
                &&& final(limiter).ips() == old(limiter).ips().remove(keys.ip@)
                &&& final(limiter).users() == old(limiter).users().remove(keys.user@)
            }
            &&& !renewed ==> {
                &&& r == Err::<(), Status>(Status::Unauthorized)
                &&& final(spent)@ == old(spent)@
                &&& final(limiter).ips() == bumped(old(limiter).ips(), keys.ip@, now, old(limiter).window())
                &&& final(limiter).users() == bumped(old(limiter).users(), keys.user@, now, old(limiter).window())
            }
        }),
{
    let renewed = match tokens {
        Some(t) => !spent.holds(presented) && !same(t.refresh_token.as_str(), presented),
        None => false,
    };
    if renewed {
        spent.spend(presented);
        limiter.clear(keys.ip.as_str(), keys.user.as_str());
        Ok(())
    } else {
        let _blocked = limiter.record_failure(keys.ip.as_str(), keys.user.as_str(), now);
        Err(Status::Unauthorized)
    }
}

/// Each refresh token works once: one that has renewed a session was replaced by
/// another one, and does not renew a session again, whatever was used up since
/// and whatever is offered in its place.
pub proof fn refresh_token_works_once(
    spent: Set<Seq<char>>,
    presented: Seq<char>,
    tokens: TokenPair,
    later: Set<Seq<char>>,
    again: Option<TokenPair>,
)
    requires
        renews(spent, presented, Some(tokens)),
        spent.insert(presented).subset_of(later),
    ensures
        tokens.refresh_token@ != presented,
        !renews(later, presented, again),
{
    assert(spent.insert(presented).contains(presented));
}

/// The access token of a request: the one in the header, else the one in the
/// cookie.
pub open spec fn access_of(authorization: Option<Seq<u8>>, cookies: Seq<Vec<u8>>) -> Option<Seq<char>> {
    let text = match authorization {
        Some(b) => header_text(b),
        None => None,
    };
    if text is Some && has_prefix(text->0, "Bearer "@) {
        Some(text->0.skip("Bearer "@.len() as int))
    } else {
        first_value(cookie_pairs(cookies), ACCESS_COOKIE@)
    }
}

/// The access token of a request.
pub fn session_token(authorization: &Option<Vec<u8>>, cookies: &Vec<Vec<u8>>) -> (r: Option<String>)
    ensures
        option_view(r) == access_of(bytes_of(*authorization), cookies@),
{
    let text = match authorization {
        Some(b) => header_str(b.as_slice()),
        None => None,
    };
    match &text {
        Some(t) => match strip_prefix(t.as_str(), "Bearer ") {
            Some(s) => {
                return Some(s);
            },
            None => {},
        },
        None => {},
    }
    cookie_value(cookies, ACCESS_COOKIE)
}

/// The user of a session: `sub` is the user that the token was made for, and
/// nothing where there is no valid token.
pub fn extract_user_id(sub: Option<String>) -> (r: Result<String, Status>)
    ensures
        r == (match sub {
            Some(id) => Ok(id),
            None => Err(Status::Unauthorized),
        }),
{
    match sub {
        Some(id) => Ok(id),
        None => Err(Status::Unauthorized),
    }
}

/// What is done at the end of a session.
#[derive(Clone, Debug)]
pub struct LogoutPlan {
    /// The refresh token that is revoked.
    pub refresh: Option<String>,
    /// Where it cannot be revoked, that is a bad request.
    pub strict: bool,
    /// The access token that is revoked, where it is valid.
    pub access: Option<String>,
}

/// The end of a session: a token in the body has to be known, and one in the
/// cookie need not be, so that nobody is kept from logging out.
pub fn logout(body: Option<String>, authorization: &Option<Vec<u8>>, cookies: &Vec<Vec<u8>>) -> (p: LogoutPlan)
    ensures
        option_view(p.refresh) == refresh_of(option_view(body), cookies@),
        p.strict == (body is Some),
        option_view(p.access) == access_of(bytes_of(*authorization), cookies@),
{
    let access = session_token(authorization, cookies);
    match body {
        Some(t) => LogoutPlan { refresh: Some(t), strict: true, access },
        None => LogoutPlan { refresh: cookie_value(cookies, REFRESH_COOKIE), strict: false, access },
    }
}

/// The text of RFC 3339 for a moment in seconds since the start of 1970, as
/// `chrono` writes it; there is none for a moment that it cannot hold.
pub uninterp spec fn moment_text(secs: i64) -> Option<Seq<char>>;

/// `chrono::DateTime::from_timestamp` and the RFC 3339 form of its result. It
/// is a function of the seconds.
#[verifier::external_body]
fn write_moment(secs: i64) -> (r: Option<String>)
    ensures
        option_view(r) == moment_text(secs),
{
    chrono::DateTime::from_timestamp(secs, 0).map(|d| d.to_rfc3339())
}

/// Until when a revoked token is remembered: an empty text where the moment
/// has none.
pub fn expiry_text(exp: i64) -> (r: String)
    ensures
        r@ == (match moment_text(exp) {
            Some(t) => t,
            None => ""@,
        }),
{
    match write_moment(exp) {
        Some(t) => t,
        None => "".to_owned(),
    }
}

/// Forgets whether a token was revoked, so that the next request with it looks
/// that up.
pub fn forget_revocation(c: &mut AuthCaches, jti: &str)
    ensures
        cached(final(c).revocations) == cached(old(c).revocations).remove(jti@),
        final(c).tokens == old(c).tokens,
        final(c).users == old(c).users,
{
    cache_remove(&mut c.revocations, jti);
}

/// After a session has ended, a request with its token does not get by on what
/// was remembered of it.
pub proof fn logout_takes_effect(before: AuthCaches, after: AuthCaches, jti: Seq<char>, now: u64)
    requires
        cached(after.revocations) == cached(before.revocations).remove(jti),
    ensures
        known_revocation(after, jti, now) is None,
{
}

// ---------------------------------------------------------------------------
// Settings
// ---------------------------------------------------------------------------

/// What is to be changed of the settings.
#[derive(Clone, Copy, Debug)]
pub struct UpdateAuthSettingsRequest {
    pub access_token_expiry_mins: Option<i64>,
    pub refresh_token_expiry_days: Option<i64>,
    pub require_totp: Option<bool>,
    pub require_totp_for_oauth: Option<bool>,
    pub auto_create_oauth_users: Option<bool>,
    pub max_login_attempts: Option<u32>,
    pub lockout_duration_secs: Option<u32>,
    pub allow_registration: Option<bool>,
    pub password_min_length: Option<u32>,
}

/// The row for a text, where there is one.
pub open spec fn row_if(key: Seq<char>, value: Option<Seq<char>>) -> Seq<(Seq<char>, Seq<char>)> {
    match value {
        Some(v) => Seq::<(Seq<char>, Seq<char>)>::empty().push((key, v)),
        None => Seq::<(Seq<char>, Seq<char>)>::empty(),
    }
}

/// The text of a number.
pub open spec fn int_text(v: Option<i64>) -> Option<Seq<char>> {
    match v {
        Some(n) => Some(dec_int(n as int)),
        None => None,
    }
}

/// The text of a number.
pub open spec fn nat_text(v: Option<u32>) -> Option<Seq<char>> {
    match v {
        Some(n) => Some(dec(n as nat)),
        None => None,
    }
}

/// The text of a choice.
pub open spec fn choice_text(v: Option<bool>) -> Option<Seq<char>> {
    match v {
        Some(b) => Some(bool_text(b)),
        None => None,
    }
}

/// The rows of the settings that are to be changed, in order.
pub open spec fn settings_rows(q: UpdateAuthSettingsRequest) -> Seq<(Seq<char>, Seq<char>)> {
    row_if("access_token_expiry_mins"@, int_text(q.access_token_expiry_mins)) + row_if(
        "refresh_token_expiry_days"@,
        int_text(q.refresh_token_expiry_days),
    ) + row_if("require_totp"@, choice_text(q.require_totp)) + row_if(
        "require_totp_for_oauth"@,
        choice_text(q.require_totp_for_oauth),
    ) + row_if("auto_create_oauth_users"@, choice_text(q.auto_create_oauth_users)) + row_if(
        "max_login_attempts"@,
        nat_text(q.max_login_attempts),
    ) + row_if("lockout_duration_secs"@, nat_text(q.lockout_duration_secs)) + row_if(
        "allow_registration"@,
        choice_text(q.allow_registration),
    ) + row_if("password_min_length"@, nat_text(q.password_min_length))
}

fn put_int(t: &mut Vec<KeyValue>, key: &str, v: Option<i64>)
    ensures
        rows(final(t)@) == rows(old(t)@) + row_if(key@, int_text(v)),
{
    let ghost before = rows(t@);
    match v {
        Some(n) => {
            let s = fmt_i64(n);
            put(t, key, s.as_str());
            assert(rows(t@) =~= before + row_if(key@, int_text(v)));
        },
        None => {
            assert(before =~= before + row_if(key@, int_text(v)));
        },
    }
}

fn put_nat(t: &mut Vec<KeyValue>, key: &str, v: Option<u32>)
    ensures
        rows(final(t)@) == rows(old(t)@) + row_if(key@, nat_text(v)),
{
    let ghost before = rows(t@);
    match v {
        Some(n) => {
            let s = fmt_u64(n as u64);
            put(t, key, s.as_str());
            assert(rows(t@) =~= before + row_if(key@, nat_text(v)));
        },
        None => {
            assert(before =~= before + row_if(key@, nat_text(v)));
        },
    }
}

fn put_choice(t: &mut Vec<KeyValue>, key: &str, v: Option<bool>)
    ensures
        rows(final(t)@) == rows(old(t)@) + row_if(key@, choice_text(v)),
{
    let ghost before = rows(t@);
    match v {
        Some(b) => {
            put(t, key, bool_str(b));
            assert(rows(t@) =~= before + row_if(key@, choice_text(v)));
        },
        None => {
            assert(before =~= before + row_if(key@, choice_text(v)));
        },
    }
}

/// The rows of the settings that are to be changed.
pub fn update_auth_settings(q: &UpdateAuthSettingsRequest) -> (t: Vec<KeyValue>)
    ensures
        rows(t@) == settings_rows(*q),
{
    let mut t: Vec<KeyValue> = Vec::new();
    assert(rows(t@) =~= Seq::<(Seq<char>, Seq<char>)>::empty());
    put_int(&mut t, "access_token_expiry_mins", q.access_token_expiry_mins);
    assert(rows(t@) =~= row_if("access_token_expiry_mins"@, int_text(q.access_token_expiry_mins)));
    put_int(&mut t, "refresh_token_expiry_days", q.refresh_token_expiry_days);
    put_choice(&mut t, "require_totp", q.require_totp);
    put_choice(&mut t, "require_totp_for_oauth", q.require_totp_for_oauth);
    put_choice(&mut t, "auto_create_oauth_users", q.auto_create_oauth_users);
    put_nat(&mut t, "max_login_attempts", q.max_login_attempts);
    put_nat(&mut t, "lockout_duration_secs", q.lockout_duration_secs);
    put_choice(&mut t, "allow_registration", q.allow_registration);
    put_nat(&mut t, "password_min_length", q.password_min_length);
    t
}

// ---------------------------------------------------------------------------
// Other identity providers
// ---------------------------------------------------------------------------

/// A provider that is to be made.
#[derive(Clone, Debug)]
pub struct CreateProviderRequest {
    pub name: String,
    pub provider_type: String,
    pub client_id: String,
    pub client_secret: String,
    pub auth_url: Option<String>,
    pub token_url: Option<String>,
    pub userinfo_url: Option<String>,
    pub scopes: Option<String>,
}

/// A provider: one of two that are known, or one that says itself where
/// things are.
#[derive(Clone, Debug)]
pub enum ProviderPlan {
    Google { client_id: String, client_secret: String },
    Github { client_id: String, client_secret: String },
    Oidc {
        name: String,
        client_id: String,
        client_secret: String,
        auth_url: String,
        token_url: String,
        userinfo_url: String,
        scopes: String,
    },
}

/// The text, or an empty one.
pub open spec fn text_or_empty(v: Option<String>) -> Seq<char> {
    match v {
        Some(t) => t@,
        None => ""@,
    }
}

/// `p` is the provider of the request.
pub open spec fn is_provider_of(p: ProviderPlan, q: CreateProviderRequest) -> bool {
    if q.provider_type@ == "google"@ {
        p == (ProviderPlan::Google { client_id: q.client_id, client_secret: q.client_secret })
    } else if q.provider_type@ == "github"@ {
        p == (ProviderPlan::Github { client_id: q.client_id, client_secret: q.client_secret })
    } else {
        p matches ProviderPlan::Oidc { name, client_id, client_secret, auth_url, token_url, userinfo_url, scopes } && {
            &&& name == q.name
            &&& client_id == q.client_id
            &&& client_secret == q.client_secret
            &&& auth_url@ == text_or_empty(q.auth_url)
            &&& token_url@ == text_or_empty(q.token_url)
            &&& userinfo_url@ == text_or_empty(q.userinfo_url)
            &&& scopes@ == (match q.scopes {
                Some(t) => t@,
                None => "openid email profile"@,
            })
        }
    }
}

fn or_empty(v: Option<String>) -> (r: String)
    ensures
        r@ == text_or_empty(v),
{
    match v {
        Some(t) => t,
        None => "".to_owned(),
    }
}

/// The provider of a request.
pub fn create_oauth_provider(q: CreateProviderRequest) -> (p: ProviderPlan)
    ensures
        is_provider_of(p, q),
{
    if same(q.provider_type.as_str(), "google") {
        ProviderPlan::Google { client_id: q.client_id, client_secret: q.client_secret }
    } else if same(q.provider_type.as_str(), "github") {
        ProviderPlan::Github { client_id: q.client_id, client_secret: q.client_secret }
    } else {
        let scopes = match q.scopes {
            Some(t) => t,
            None => "openid email profile".to_owned(),
        };
        ProviderPlan::Oidc {
            name: q.name,
            client_id: q.client_id,
            client_secret: q.client_secret,
            auth_url: or_empty(q.auth_url),
            token_url: or_empty(q.token_url),
            userinfo_url: or_empty(q.userinfo_url),
            scopes,
        }
    }
}

/// Where a provider sends the user back to.
pub fn oauth_redirect(provider: &str) -> (r: String)
    ensures
        r@ == "/api/v1/auth/oauth/"@ + provider@ + "/callback"@,
{
    cat3("/api/v1/auth/oauth/", provider, "/callback")
}

/// Whether what a provider sent along is complete.
pub fn callback_complete(code: &str, state: &str) -> (r: Result<(), Status>)
    ensures
        r is Ok <==> code@.len() > 0 && state@.len() > 0,
        r matches Err(e) ==> e == Status::BadRequest,
{
    if code.is_empty() || state.is_empty() {
        return Err(Status::BadRequest);
    }
    Ok(())
}

/// The state that a provider sends along is accepted: it is known and was not
/// used up.
pub open spec fn state_accepted(spent: Set<Seq<char>>, state: Seq<char>, known: bool) -> bool {
    known && !spent.contains(state)
}

/// The answer when a provider has sent the user back: `known` says whether the
/// state was made here for this provider. A state that is accepted is used up.
/// The exchange of tokens is not there yet.
pub fn oauth_callback(spent: &mut SpentTokens, state: &str, known: bool) -> (r: Status)
    ensures
        state_accepted(old(spent)@, state@, known) ==> r == Status::NotImplemented && final(spent)@ == old(
            spent,
        )@.insert(state@),
        !state_accepted(old(spent)@, state@, known) ==> r == Status::Unauthorized && final(spent)@ == old(spent)@,
{
    if known && !spent.holds(state) {
        spent.spend(state);
        Status::NotImplemented
    } else {
        Status::Unauthorized
    }
}

/// A state that was never made here is not accepted, and one that was accepted
/// is not accepted again, whatever was used up since.
pub proof fn oauth_state_works_once(spent: Set<Seq<char>>, state: Seq<char>, later: Set<Seq<char>>, known: bool)
    requires
        spent.insert(state).subset_of(later),
    ensures
        !state_accepted(spent, state, false),
        !state_accepted(later, state, known),
{
    assert(spent.insert(state).contains(state));
}

// ---------------------------------------------------------------------------
// The first user, and keys
// ---------------------------------------------------------------------------

/// The first user.
#[derive(Clone, Debug)]
pub struct NewUser {
    pub username: String,
    pub auth_provider: String,
    pub role: String,
    pub role_id: String,
    pub enabled: bool,
    pub totp_enabled: bool,
}

/// The first user: an administrator, whatever the request asks for. A password
/// that users may not choose is a bad request. `rows` is how many rows the
/// insertion has made, which it does only where there is no user yet; nothing
/// where it failed.
pub fn register(username: String, password: &str, min_length: u32, rows: Option<u64>) -> (r: Result<NewUser, Status>)
    ensures
        !is_password(password@, min_length as nat) ==> r == Err::<NewUser, Status>(Status::BadRequest),
        is_password(password@, min_length as nat) ==> match rows {
            None => r == Err::<NewUser, Status>(Status::Conflict),
            Some(n) => if n == 0 {
                r == Err::<NewUser, Status>(Status::Forbidden)
            } else {
                r matches Ok(u) && {
                    &&& u.username == username
                    &&& u.auth_provider@ == "local"@
                    &&& u.role@ == "admin"@
                    &&& u.role_id@ == "builtin-admin"@
                    &&& u.enabled
                    &&& !u.totp_enabled
                }
            },
        },
{
    match validate_password(password, min_length) {
        Ok(()) => {},
        Err(s) => {
            return Err(s);
        },
    }
    match rows {
        None => Err(Status::Conflict),
        Some(n) => {
            if n == 0 {
                return Err(Status::Forbidden);
            }
            Ok(
                NewUser {
                    username,
                    auth_provider: "local".to_owned(),
                    role: "admin".to_owned(),
                    role_id: "builtin-admin".to_owned(),
                    enabled: true,
                    totp_enabled: false,
                },
            )
        },
    }
}

/// The user that a new key of that name belongs to: the first there is.
/// Without a user it is a bad request, and a stored identifier that is none is
/// an error of the server. A name by which nodes of the cluster are known is a
/// bad request.
pub fn create_api_key(first_user: Option<&str>, name: &str) -> (r: Result<String, Status>)
    ensures
        match first_user {
            None => r == Err::<String, Status>(Status::BadRequest),
            Some(id) => match uuid_text(id@) {
                Some(t) => if is_replication_key(name@) {
                    r == Err::<String, Status>(Status::BadRequest)
                } else {
                    r matches Ok(s) && s@ == t
                },
                None => r == Err::<String, Status>(Status::Internal),
            },
        },
{
    match first_user {
        None => Err(Status::BadRequest),
        Some(id) => match require_uuid(id) {
            Ok(t) => match key_name_allowed(name) {
                Ok(()) => Ok(t),
                Err(s) => Err(s),
            },
            Err(_) => Err(Status::Internal),
        },
    }
}

/// What is answered once a provider was to be deleted.
pub fn delete_oauth_provider(id: &str, deleted: bool) -> (r: Result<MessageResponse, Status>)
    ensures
        said(r) == change_answer(id@, deleted, Status::NotFound, "Provider "@ + id@ + " deleted"@),
{
    answer_change(id, deleted, Status::NotFound, cat3("Provider ", id, " deleted"))
}

// ---------------------------------------------------------------------------
// Laws
// ---------------------------------------------------------------------------

proof fn lemma_first_piece(ip: Seq<char>, rest: Seq<char>)
    ensures
        !ip.contains(',') ==> split(ip, ',')[0] == ip,
        !ip.contains(',') ==> split(ip + seq![','] + rest, ',')[0] == ip,
    decreases rest.len(),
{
    if !ip.contains(',') {
        crate::text::split_of_join(seq![ip], ',');
        assert(crate::text::join(seq![ip], seq![',']) == ip);
        if rest.len() == 0 {
            let s = ip + seq![','] + rest;
            assert(s.drop_last() =~= ip);
            assert(s.last() == ',');
            assert(split(s, ',') == split(ip, ',').push(Seq::<char>::empty()));
        } else {
            let s = ip + seq![','] + rest;
            let t = ip + seq![','] + rest.drop_last();
            assert(s.drop_last() =~= t);
            lemma_first_piece(ip, rest.drop_last());
            lemma_more_pieces(ip, rest.drop_last());
            split_pieces(t, ',');
        }
    }
}

proof fn lemma_more_pieces(ip: Seq<char>, rest: Seq<char>)
    ensures
        split(ip + seq![','] + rest, ',').len() >= 2,
    decreases rest.len(),
{
    let s = ip + seq![','] + rest;
    if rest.len() == 0 {
        assert(s.drop_last() =~= ip);
        assert(s.last() == ',');
        split_pieces(ip, ',');
    } else {
        assert(s.drop_last() =~= ip + seq![','] + rest.drop_last());
        lemma_more_pieces(ip, rest.drop_last());
    }
}

/// The address that attempts are counted under is the first of those the proxies name, without
/// white space around it; without a readable list it is the one made up.
pub proof fn caller_is_the_first_forwarded(b: Seq<u8>, made_up: Seq<char>, rest: Seq<char>, ip: Seq<char>)
    ensures
        forwarded_for(None) is None,
        counted_ip(None, made_up) == made_up,
        header_text(b) is None ==> forwarded_for(Some(b)) is None && counted_ip(Some(b), made_up) == made_up,
        header_text(b) == Some(ip) && !ip.contains(',') ==> forwarded_for(Some(b)) == Some(trim(ip))
            && counted_ip(Some(b), made_up) == trim(ip),
        header_text(b) == Some(ip + seq![','] + rest) && !ip.contains(',')
            ==> forwarded_for(Some(b)) == Some(trim(ip)) && counted_ip(Some(b), made_up) == trim(ip),
{
    lemma_first_piece(ip, rest);
}

/// A login of nobody is unknown, one of a disabled account is told so whatever the password,
/// a wrong password is told so, and a right one leads on to the second factor where the
/// account or the server asks for one.
pub proof fn logins_end_in_one_way(u: LoginUser, password_valid: bool, require_totp: bool)
    ensures
        login_outcome(None, password_valid, require_totp) == LoginOutcome::Unknown,
        !u.enabled ==> login_outcome(Some(u), password_valid, require_totp) == LoginOutcome::Disabled,
        u.enabled && !password_valid ==> login_outcome(Some(u), password_valid,
            require_totp) == LoginOutcome::WrongPassword,
        u.enabled && password_valid && u.totp_enabled
            ==> login_outcome(Some(u), password_valid, require_totp) == LoginOutcome::SecondFactor,
        u.enabled && password_valid && require_totp
            ==> login_outcome(Some(u), password_valid, require_totp) == LoginOutcome::SecondFactor,
        u.enabled && password_valid && !u.totp_enabled && !require_totp
            ==> login_outcome(Some(u), password_valid, require_totp) == LoginOutcome::Tokens,
{
}

/// A login that is denied, failed or done is noted as such; one that is not decided yet, or
/// of nobody, is not.
pub proof fn logins_are_noted(o: LoginOutcome)
    ensures
        login_note(LoginOutcome::Disabled) == Some("login_denied_disabled"@),
        login_note(LoginOutcome::WrongPassword) == Some("login_failed"@),
        login_note(LoginOutcome::Tokens) == Some("login_success"@),
        login_note(o) is None <==> o == LoginOutcome::Unknown || o == LoginOutcome::SecondFactor,
{
}

/// A refresh token of the body goes before one of a cookie. An access token of the header goes
/// before one of a cookie where the header names a bearer, and is then all that stands
/// behind the word.
pub proof fn tokens_are_found_in_order(t: Seq<char>, h: Seq<u8>, cookies: Seq<Vec<u8>>)
    ensures
        refresh_of(Some(t), cookies) == Some(t),
        refresh_of(None, cookies) == first_value(cookie_pairs(cookies), "aifw_rt"@),
        header_text(h) == Some("Bearer "@ + t) ==> access_of(Some(h), cookies) == Some(t),
        header_text(h) is None ==> access_of(Some(h), cookies) == access_of(None, cookies),
        header_text(h) == Some(t) && !has_prefix(t, "Bearer "@)
            ==> access_of(Some(h), cookies) == access_of(None, cookies),
        access_of(None, cookies) == first_value(cookie_pairs(cookies), "aifw_at"@),
{
    assert(("Bearer "@ + t).skip("Bearer "@.len() as int) =~= t);
    assert(("Bearer "@ + t).take("Bearer "@.len() as int) =~= "Bearer "@);
}

/// A token that was spent renews nothing, nor does one for which none came back or the same
/// one did; any other does.
pub proof fn spent_tokens_renew_nothing(spent: Set<Seq<char>>, presented: Seq<char>, t: TokenPair)
    ensures
        spent.contains(presented) ==> !renews(spent, presented, Some(t)),
        !renews(spent, presented, None),
        t.refresh_token@ == presented ==> !renews(spent, presented, Some(t)),
        !spent.contains(presented) && t.refresh_token@ != presented ==> renews(spent, presented, Some(t)),
{
}

/// A state is accepted where it is known and was not spent.
pub proof fn states_are_accepted(spent: Set<Seq<char>>, state: Seq<char>)
    ensures
        !spent.contains(state) ==> state_accepted(spent, state, true),
        spent.contains(state) ==> !state_accepted(spent, state, true),
        !state_accepted(spent, state, false),
{
}

proof fn lemma_nine_parts(
    r0: Seq<(Seq<char>, Seq<char>)>,
    r1: Seq<(Seq<char>, Seq<char>)>,
    r2: Seq<(Seq<char>, Seq<char>)>,
    r3: Seq<(Seq<char>, Seq<char>)>,
    r4: Seq<(Seq<char>, Seq<char>)>,
    r5: Seq<(Seq<char>, Seq<char>)>,
    r6: Seq<(Seq<char>, Seq<char>)>,
    r7: Seq<(Seq<char>, Seq<char>)>,
    r8: Seq<(Seq<char>, Seq<char>)>,
    x: (Seq<char>, Seq<char>),
)
    ensures
        (r0 + r1 + r2 + r3 + r4 + r5 + r6 + r7 + r8).contains(x) <==> r0.contains(x) || r1.contains(x)
            || r2.contains(x) || r3.contains(x) || r4.contains(x) || r5.contains(x) || r6.contains(x)
            || r7.contains(x) || r8.contains(x),
        (r0 + r1 + r2 + r3 + r4 + r5 + r6 + r7 + r8).len() == r0.len() + r1.len() + r2.len() + r3.len() + r4.len()
            + r5.len() + r6.len() + r7.len() + r8.len(),
{
    append_holds(r0, r1, x);
    append_holds(r0 + r1, r2, x);
    append_holds(r0 + r1 + r2, r3, x);
    append_holds(r0 + r1 + r2 + r3, r4, x);
    append_holds(r0 + r1 + r2 + r3 + r4, r5, x);
    append_holds(r0 + r1 + r2 + r3 + r4 + r5, r6, x);
    append_holds(r0 + r1 + r2 + r3 + r4 + r5 + r6, r7, x);
    append_holds(r0 + r1 + r2 + r3 + r4 + r5 + r6 + r7, r8, x);
}

proof fn lemma_row_if(key: Seq<char>, value: Option<Seq<char>>, x: (Seq<char>, Seq<char>))
    ensures
        row_if(key, value).contains(x) <==> x.0 == key && Some(x.1) == value,
        row_if(key, value).len() == (if value is Some {
            1int
        } else {
            0int
        }),
{
    if value is Some {
        push_holds(Seq::<(Seq<char>, Seq<char>)>::empty(), (key, value->0), x);
    }
}

/// A row is stored where its setting is given, under the name of that setting, with its
/// value as text; no other row is.
pub proof fn settings_are_stored_under_their_names(q: UpdateAuthSettingsRequest, key: Seq<char>, value: Seq<char>)
    ensures
        settings_rows(q).contains((key, value)) <==> ({
            ||| key == "access_token_expiry_mins"@ && (q.access_token_expiry_mins matches Some(v)
                && value == dec_int(v as int))
            ||| key == "refresh_token_expiry_days"@ && (q.refresh_token_expiry_days matches Some(v)
                && value == dec_int(v as int))
            ||| key == "require_totp"@ && (q.require_totp matches Some(v)
                && value == (if v { "true"@ } else { "false"@ }))
            ||| key == "require_totp_for_oauth"@ && (q.require_totp_for_oauth matches Some(v)
                && value == (if v { "true"@ } else { "false"@ }))
            ||| key == "auto_create_oauth_users"@ && (q.auto_create_oauth_users matches Some(v)
                && value == (if v { "true"@ } else { "false"@ }))
            ||| key == "max_login_attempts"@ && (q.max_login_attempts matches Some(v) && value == dec(v as nat))
            ||| key == "lockout_duration_secs"@ && (q.lockout_duration_secs matches Some(v) && value == dec(v as nat))
            ||| key == "allow_registration"@ && (q.allow_registration matches Some(v)
                && value == (if v { "true"@ } else { "false"@ }))
            ||| key == "password_min_length"@ && (q.password_min_length matches Some(v) && value == dec(v as nat))
        }),
        settings_rows(q).len() == (if q.access_token_expiry_mins is Some {
            1int
        } else {
            0int
        }) + (if q.refresh_token_expiry_days is Some {
            1int
        } else {
            0int
        }) + (if q.require_totp is Some {
            1int
        } else {
            0int
        }) + (if q.require_totp_for_oauth is Some {
            1int
        } else {
            0int
        }) + (if q.auto_create_oauth_users is Some {
            1int
        } else {
            0int
        }) + (if q.max_login_attempts is Some {
            1int
        } else {
            0int
        }) + (if q.lockout_duration_secs is Some {
            1int
        } else {
            0int
        }) + (if q.allow_registration is Some {
            1int
        } else {
            0int
        }) + (if q.password_min_length is Some {
            1int
        } else {
            0int
        }),
{
    lemma_row_if("access_token_expiry_mins"@, int_text(q.access_token_expiry_mins), (key, value));
    lemma_row_if("refresh_token_expiry_days"@, int_text(q.refresh_token_expiry_days), (key, value));
    lemma_row_if("require_totp"@, choice_text(q.require_totp), (key, value));
    lemma_row_if("require_totp_for_oauth"@, choice_text(q.require_totp_for_oauth), (key, value));
    lemma_row_if("auto_create_oauth_users"@, choice_text(q.auto_create_oauth_users), (key, value));
    lemma_row_if("max_login_attempts"@, nat_text(q.max_login_attempts), (key, value));
    lemma_row_if("lockout_duration_secs"@, nat_text(q.lockout_duration_secs), (key, value));
    lemma_row_if("allow_registration"@, choice_text(q.allow_registration), (key, value));
    lemma_row_if("password_min_length"@, nat_text(q.password_min_length), (key, value));
    lemma_nine_parts(
        row_if("access_token_expiry_mins"@, int_text(q.access_token_expiry_mins)),
        row_if("refresh_token_expiry_days"@, int_text(q.refresh_token_expiry_days)),
        row_if("require_totp"@, choice_text(q.require_totp)),
        row_if("require_totp_for_oauth"@, choice_text(q.require_totp_for_oauth)),
        row_if("auto_create_oauth_users"@, choice_text(q.auto_create_oauth_users)),
        row_if("max_login_attempts"@, nat_text(q.max_login_attempts)),
        row_if("lockout_duration_secs"@, nat_text(q.lockout_duration_secs)),
        row_if("allow_registration"@, choice_text(q.allow_registration)),
        row_if("password_min_length"@, nat_text(q.password_min_length)),
        (key, value),
    );
}

/// A provider of a known kind needs its credentials only; any other holds all that was asked
/// for, each value in its own place, with empty addresses where none were given.
pub proof fn providers_go_by_their_kind(p: ProviderPlan, q: CreateProviderRequest)
    requires
        is_provider_of(p, q),
    ensures
        q.provider_type@ == "google"@ ==> p is Google && p->Google_client_id == q.client_id
            && p->Google_client_secret == q.client_secret,
        q.provider_type@ == "github"@ && q.provider_type@ != "google"@ ==> p is Github
            && p->Github_client_id == q.client_id && p->Github_client_secret == q.client_secret,
        q.provider_type@ != "google"@ && q.provider_type@ != "github"@ ==> p is Oidc && p->name == q.name
            && p->Oidc_client_id == q.client_id && p->Oidc_client_secret == q.client_secret,
        p is Oidc ==> (q.auth_url matches Some(u) ==> p->auth_url@ == u@),
        p is Oidc && q.auth_url is None ==> p->auth_url@.len() == 0,
        p is Oidc ==> (q.token_url matches Some(u) ==> p->token_url@ == u@),
        p is Oidc && q.token_url is None ==> p->token_url@.len() == 0,
        p is Oidc ==> (q.userinfo_url matches Some(u) ==> p->userinfo_url@ == u@),
        p is Oidc && q.userinfo_url is None ==> p->userinfo_url@.len() == 0,
        p is Oidc ==> (q.scopes matches Some(u) ==> p->scopes@ == u@),
        p is Oidc && q.scopes is None ==> p->scopes@ == "openid email profile"@,
{
    reveal_strlit("");
}

/// A header stands for its bytes.
pub proof fn headers_hold_their_bytes(h: Option<Vec<u8>>)
    ensures
        h is None ==> bytes_of(h) is None,
        h matches Some(b) ==> bytes_of(h) == Some(b@),
{
}

/// Tokens come only for the right password and the right code of an enabled second factor; with
/// another code a code for an emergency is tried, and without the password nothing is.
pub proof fn second_factor_needs_the_password(enabled: Option<bool>, password_valid: bool, code_valid: Option<bool>,
    r: TotpStep)
    requires
        call_ensures(totp_login, (enabled, password_valid, code_valid), r),
    ensures
        r == TotpStep::Tokens <==> enabled == Some(true) && password_valid && code_valid == Some(true),
        r == TotpStep::Refuse <==> enabled != Some(true) || !password_valid,
        r == TotpStep::TryRecovery <==> enabled == Some(true) && password_valid && code_valid != Some(true),
{
}

/// Whoever registers has a password that is one and is the first to do so, and becomes an
/// administrator with a local account.
pub proof fn first_user_is_the_administrator(username: String, password: &str, min_length: u32, n: u64,
    r: Result<NewUser, Status>)
    requires
        call_ensures(register, (username, password, min_length, Some(n)), r),
    ensures
        !is_password(password@, min_length as nat) ==> r == Err::<NewUser, Status>(Status::BadRequest),
        is_password(password@, min_length as nat) && n == 0 ==> r == Err::<NewUser, Status>(Status::Forbidden),
        is_password(password@, min_length as nat) && n > 0 ==> r is Ok && r->Ok_0.username == username
            && r->Ok_0.role@ == "admin"@ && r->Ok_0.role_id@ == "builtin-admin"@ && r->Ok_0.auth_provider@ == "local"@
            && r->Ok_0.enabled && !r->Ok_0.totp_enabled,
{
}

/// A key is made for the first user, under any name but those of the replication.
pub proof fn reserved_names_make_no_key(id: &str, name: &str, r: Result<String, Status>)
    ensures
        call_ensures(create_api_key, (None::<&str>, name), r) ==> r == Err::<String, Status>(Status::BadRequest),
        call_ensures(create_api_key, (Some(id), name), r) && (name@ == "aifw-cluster-peer"@
            || name@ == "aifw-daemon-loopback"@) ==> r is Err,
        call_ensures(create_api_key, (Some(id), name), r) && uuid_text(id@) is Some && name@ != "aifw-cluster-peer"@
            && name@ != "aifw-daemon-loopback"@ ==> r is Ok && uuid_text(id@) == Some(r->Ok_0@),
        call_ensures(create_api_key, (Some(id), name), r) && uuid_text(id@) is None
            ==> r == Err::<String, Status>(Status::Internal),
{
}

/// A wrong password counts against the address and against the name, each in its own table; a
/// right one clears both, and a login of nobody or of a disabled account changes neither.
pub proof fn failed_logins_are_counted(keys: &LimitKeys, u: LoginUser, password_valid: bool, require_totp: bool,
    now: i64, o: LoginOutcome)
    ensures
        u.enabled && !password_valid ==> forall|l: &mut LoginRateLimiter|
            #[trigger] call_ensures(finish_login, (l, keys, Some(u), password_valid, require_totp, now), o)
            ==> o == LoginOutcome::WrongPassword && final(l).ips() == bumped((*l).ips(), keys.ip@, now, (*l).window())
            && final(l).users() == bumped((*l).users(), keys.user@, now, (*l).window()),
        u.enabled && password_valid ==> forall|l: &mut LoginRateLimiter|
            #[trigger] call_ensures(finish_login, (l, keys, Some(u), password_valid, require_totp, now), o)
            ==> o != LoginOutcome::WrongPassword && final(l).ips() == (*l).ips().remove(keys.ip@)
            && final(l).users() == (*l).users().remove(keys.user@),
        !u.enabled ==> forall|l: &mut LoginRateLimiter|
            #[trigger] call_ensures(finish_login, (l, keys, Some(u), password_valid, require_totp, now), o)
            ==> o == LoginOutcome::Disabled && final(l).ips() == (*l).ips() && final(l).users() == (*l).users(),
        forall|l: &mut LoginRateLimiter| #[trigger] call_ensures(finish_login, (l, keys, None::<LoginUser>,
            password_valid, require_totp, now), o) ==> o == LoginOutcome::Unknown && final(l).ips() == (*l).ips()
            && final(l).users() == (*l).users(),
        forall|l: &mut LoginRateLimiter| #[trigger] call_ensures(finish_login, (l, keys, Some(u), password_valid,
            require_totp, now), o) ==> final(l).max() == (*l).max() && final(l).window() == (*l).window(),
{
}

/// A token that is spent stays spent, a state that was accepted is spent by it, and forgetting a
/// revocation touches nothing else.
pub proof fn spent_tokens_are_remembered(token: &str, state: &str, known: bool, jti: &str, r: Status, d: ())
    ensures
        forall|l: &mut SpentTokens| #[trigger] call_ensures(SpentTokens::spend, (l, token), d)
            ==> final(l)@ == (*l)@.insert(token@),
        forall|l: &mut SpentTokens| #[trigger] call_ensures(oauth_callback, (l, state, known), r) ==> (known
            && !(*l)@.contains(state@) ==> r == Status::NotImplemented && final(l)@ == (*l)@.insert(state@))
            && (!known || (*l)@.contains(state@) ==> r == Status::Unauthorized && final(l)@ == (*l)@),
        forall|l: &mut AuthCaches| #[trigger] call_ensures(forget_revocation, (l, jti), d)
            ==> cached(final(l).revocations) == cached((*l).revocations).remove(jti@)
            && final(l).tokens == (*l).tokens && final(l).users == (*l).users,
{
}

/// A login is counted under the address of the caller and under the name in small letters, and
/// refused where either is blocked.
pub proof fn logins_are_limited(l: &LoginRateLimiter, header: &Option<Vec<u8>>, username: &str, now: i64,
    r: Result<LimitKeys, Status>, o: LoginOutcome, s: Option<Status>)
    ensures
        call_ensures(login, (l, header, username, now), r) ==> (r matches Ok(k) ==> k.user@ == lowercase(username@)
            && k.ip@ == counted_ip(bytes_of(*header), "user:"@ + username@) && !(*l).blocks(k.ip@, k.user@, now)),
        call_ensures(login, (l, header, username, now), r) ==> (r matches Err(e) ==> e == Status::TooManyRequests
            && (*l).blocks(counted_ip(bytes_of(*header), "user:"@ + username@), lowercase(username@), now)),
        call_ensures(login_status, (o,), s) ==> (s == Some(Status::Unauthorized) <==> o == LoginOutcome::Unknown
            || o == LoginOutcome::Disabled || o == LoginOutcome::WrongPassword) && (s is None
            <==> o == LoginOutcome::SecondFactor || o == LoginOutcome::Tokens),
{
}

/// A code for an emergency that was used gives tokens and one that was not is refused; a code
/// that is checked is right, wrong or asked for without a second factor.
pub proof fn codes_decide(t: TotpStep, r: Result<(), Status>, id: String, u: Result<String, Status>, code: &str,
    state: &str)
    ensures
        call_ensures(recovery_tried, (true,), t) ==> t == TotpStep::Tokens,
        call_ensures(recovery_tried, (false,), t) ==> t == TotpStep::Refuse,
        call_ensures(totp_verify, (Some(true),), r) ==> r is Ok,
        call_ensures(totp_verify, (Some(false),), r) ==> r == Err::<(), Status>(Status::Unauthorized),
        call_ensures(totp_verify, (None::<bool>,), r) ==> r == Err::<(), Status>(Status::BadRequest),
        call_ensures(extract_user_id, (Some(id),), u) ==> u == Ok::<String, Status>(id),
        call_ensures(extract_user_id, (None::<String>,), u) ==> u == Err::<String, Status>(Status::Unauthorized),
        call_ensures(callback_complete, (code, state), r) ==> (r is Ok <==> code@.len() > 0 && state@.len() > 0),
{
}

} // verus!
