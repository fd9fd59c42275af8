use aifw_api::auth::cache::{Claims, User};
use aifw_api::auth::cookies::{
    build_cookie, clear_cookies, cookie_value, session_cookies, TokenPair, ACCESS_COOKIE, REFRESH_COOKIE,
};
use aifw_api::auth::limiter::LoginRateLimiter;
use aifw_api::auth::middleware::{
    api_key_verified, auth_middleware, find_credential, perm_check, permissions_resolved, plugins_answered, query_ticket,
    revocation_known, ticket_consumed, token_cache_ttl_secs, token_verified, user_found, AuthCaches, AuthRequest, AuthStep,
    AuthUser, Credential, Subject, AUTH_TOKEN_CACHE_TTL,
};
use aifw_api::auth::settings::{login_limiter, AuthSettings};
use aifw_api::routes::auth::forget_revocation;
use aifw_api::status::Status;

const SECOND: i64 = 1_000_000_000;

fn settings() -> AuthSettings {
    AuthSettings {
        access_token_expiry_mins: 60,
        refresh_token_expiry_days: 7,
        require_totp: false,
        require_totp_for_oauth: false,
        auto_create_oauth_users: true,
        max_login_attempts: 5,
        lockout_duration_secs: 300,
        allow_registration: true,
        password_min_length: 8,
    }
}

fn pair() -> TokenPair {
    TokenPair {
        access_token: "jwt-value".to_string(),
        refresh_token: "rfx_abc".to_string(),
        access_expires_at: String::new(),
        refresh_expires_at: String::new(),
        token_type: "Bearer".to_string(),
    }
}

// Cookies

#[test]
fn parses_cookie_header() {
    let h = vec![b"foo=1; aifw_at=tok.en; bar=2".to_vec()];
    assert_eq!(cookie_value(&h, ACCESS_COOKIE).as_deref(), Some("tok.en"));
    assert_eq!(cookie_value(&h, REFRESH_COOKIE), None);
}

#[test]
fn session_cookies_are_httponly_samesite_strict() {
    for s in session_cookies(&pair(), &settings(), false) {
        assert!(s.contains("HttpOnly"), "{s}");
        assert!(s.contains("SameSite=Strict"), "{s}");
        assert!(!s.contains("Secure"), "{s}");
    }
}

#[test]
fn secure_flag_follows_tls() {
    for c in session_cookies(&pair(), &settings(), true) {
        assert!(c.contains("; Secure"));
    }
}

#[test]
fn refresh_cookie_is_path_scoped() {
    let cookies = session_cookies(&pair(), &settings(), false);
    let refresh = &cookies[1];
    assert!(refresh.starts_with("aifw_rt=rfx_abc; Path=/api/v1/auth;"), "{refresh}");
    let access = &cookies[0];
    assert!(access.starts_with("aifw_at=jwt-value; Path=/;"), "{access}");
}

#[test]
fn clear_cookies_expire_immediately() {
    for c in clear_cookies(false) {
        assert!(c.contains("Max-Age=0"));
    }
}

#[test]
fn cookie_text_is_exact() {
    assert_eq!(
        build_cookie("aifw_at", "v", "/", 3600, true),
        "aifw_at=v; Path=/; Max-Age=3600; HttpOnly; SameSite=Strict; Secure"
    );
    let cookies = session_cookies(&pair(), &settings(), false);
    assert_eq!(cookies[0], "aifw_at=jwt-value; Path=/; Max-Age=3600; HttpOnly; SameSite=Strict");
    assert_eq!(
        cookies[1],
        "aifw_rt=rfx_abc; Path=/api/v1/auth; Max-Age=604800; HttpOnly; SameSite=Strict"
    );
}

#[test]
fn negative_expiry_counts_as_zero() {
    let mut s = settings();
    s.access_token_expiry_mins = -3;
    s.refresh_token_expiry_days = -1;
    for c in session_cookies(&pair(), &s, false) {
        assert!(c.contains("Max-Age=0;"));
    }
}

#[test]
fn token_with_a_line_break_sets_no_cookie() {
    let mut t = pair();
    t.access_token = "a\r\nSet-Cookie: x".to_string();
    let cookies = session_cookies(&t, &settings(), false);
    assert_eq!(cookies.len(), 1);
    assert!(cookies[0].starts_with("aifw_rt="));
}

#[test]
fn first_of_several_cookies_counts() {
    let h = vec![b"a=1".to_vec(), b"aifw_at=one; aifw_at=two".to_vec(), b"aifw_at=three".to_vec()];
    assert_eq!(cookie_value(&h, ACCESS_COOKIE).as_deref(), Some("one"));
}

#[test]
fn cookie_without_value_is_empty() {
    assert_eq!(cookie_value(&vec![b" aifw_at ;x=1".to_vec()], ACCESS_COOKIE).as_deref(), Some(""));
    assert_eq!(cookie_value(&vec![b"aifw_at=a=b".to_vec()], ACCESS_COOKIE).as_deref(), Some("a=b"));
}

#[test]
fn cookie_header_that_is_no_text_is_passed_over() {
    let h = vec![vec![b'a', b'i', b'f', b'w', b'_', b'a', b't', b'=', 0xff], b"aifw_at=ok".to_vec()];
    assert_eq!(cookie_value(&h, ACCESS_COOKIE).as_deref(), Some("ok"));
}

// Token cache

#[test]
fn expired_token_not_cached() {
    assert_eq!(token_cache_ttl_secs(1_000, 2_000), 0);
    assert_eq!(token_cache_ttl_secs(2_000, 2_000), 0);
}

#[test]
fn long_lived_token_capped_at_ttl() {
    let cap = AUTH_TOKEN_CACHE_TTL;
    assert_eq!(token_cache_ttl_secs(10_000, 0), cap);
}

#[test]
fn short_lived_token_bounded_by_exp() {
    let cap = AUTH_TOKEN_CACHE_TTL as i64;
    assert_eq!(token_cache_ttl_secs(cap - 50 + 10, cap - 50), 10);
}

// Credentials

fn request() -> AuthRequest {
    AuthRequest {
        method: "GET".to_string(),
        authorization: None,
        query: None,
        cookies: Vec::new(),
        has_csrf_header: false,
    }
}

fn cookie_request(method: &str, csrf: bool) -> AuthRequest {
    AuthRequest {
        method: method.to_string(),
        cookies: vec![b"aifw_at=jwt".to_vec()],
        has_csrf_header: csrf,
        ..request()
    }
}

#[test]
fn ticket_is_hexadecimal() {
    assert_eq!(query_ticket(Some("a=1&ticket=0aF9&b=2")).as_deref(), Some("0aF9"));
    assert_eq!(query_ticket(Some("ticket=")).as_deref(), Some(""));
    assert_eq!(query_ticket(Some("ticket=xyz&ticket=ab")), None);
    assert_eq!(query_ticket(Some("token=abc")), None);
    assert_eq!(query_ticket(None), None);
}

#[test]
fn nothing_brought_along_is_unauthorized() {
    assert!(matches!(find_credential(&request()), Err(Status::Unauthorized)));
}

#[test]
fn bearer_and_key_are_told_apart() {
    let mut r = request();
    r.authorization = Some(b"Bearer abc".to_vec());
    assert!(matches!(find_credential(&r), Ok(Credential::Token(t)) if t == "abc"));
    r.authorization = Some(b"ApiKey k1".to_vec());
    assert!(matches!(find_credential(&r), Ok(Credential::ApiKey(t)) if t == "k1"));
    r.authorization = Some(b"Basic zzz".to_vec());
    assert!(matches!(find_credential(&r), Err(Status::Unauthorized)));
    r.query = Some("ticket=ab".to_string());
    assert!(matches!(find_credential(&r), Ok(Credential::Ticket(t)) if t == "ab"));
}

#[test]
fn cookie_reads_without_the_header() {
    assert!(matches!(find_credential(&cookie_request("GET", false)), Ok(Credential::Token(t)) if t == "jwt"));
    assert!(matches!(find_credential(&cookie_request("HEAD", false)), Ok(Credential::Token(_))));
    assert!(matches!(find_credential(&cookie_request("OPTIONS", false)), Ok(Credential::Token(_))));
}

#[test]
fn cookie_write_needs_the_header() {
    assert!(matches!(find_credential(&cookie_request("POST", false)), Err(Status::Forbidden)));
    assert!(matches!(find_credential(&cookie_request("POST", true)), Ok(Credential::Token(_))));
}

#[test]
fn bearer_write_needs_no_header() {
    let mut r = cookie_request("POST", false);
    r.authorization = Some(b"Bearer abc".to_vec());
    assert!(matches!(find_credential(&r), Ok(Credential::Token(t)) if t == "abc"));
}

#[test]
fn ticket_wins_over_cookie() {
    let mut r = cookie_request("POST", false);
    r.query = Some("ticket=12".to_string());
    assert!(matches!(find_credential(&r), Ok(Credential::Ticket(t)) if t == "12"));
}

// Steps

fn claims(perm: Option<u64>) -> Claims {
    Claims {
        sub: "u1".to_string(),
        jti: "j1".to_string(),
        exp: 1_000_000,
        perm,
        role: Some("operator".to_string()),
    }
}

fn user(enabled: bool) -> User {
    User {
        username: "alice".to_string(),
        role: "viewer".to_string(),
        role_id: None,
        enabled,
    }
}

fn bearer() -> AuthRequest {
    AuthRequest { authorization: Some(b"Bearer tok".to_vec()), ..request() }
}

fn subject() -> Subject {
    Subject { user_id: "u1".to_string(), perm: None, role: None, api_key_name: None }
}

#[test]
fn token_goes_through_all_lookups_once() {
    let mut c = AuthCaches::new();
    let now: u64 = 5_000_000_000;
    assert!(matches!(auth_middleware(&c, &bearer(), now, 0), AuthStep::VerifyToken(t) if t == "tok"));
    let step = token_verified(&mut c, "tok".to_string(), Some(claims(Some(5))), now, 0, 0);
    assert!(matches!(&step, AuthStep::CheckRevoked(x) if x.jti == "j1"));
    let step = revocation_known(&mut c, claims(Some(5)), false, now, 0);
    let s = match step {
        AuthStep::FindUser(s) => s,
        _ => panic!("the user is looked up next"),
    };
    assert_eq!(s.user_id, "u1");
    let step = user_found(&mut c, s, Ok(Some(user(true))), now, 0);
    match step {
        AuthStep::Admit(a) => {
            assert_eq!(a.user_id, "u1");
            assert_eq!(a.username, "alice");
            assert_eq!(a.permissions, 5);
            assert_eq!(a.role, "operator");
            assert_eq!(a.api_key_name, None);
        },
        _ => panic!("the request goes on"),
    }
    // Everything is remembered now.
    assert!(matches!(auth_middleware(&c, &bearer(), now + 1, 0), AuthStep::Admit(_)));
    // The user is forgotten after five seconds, the token after a minute.
    assert!(matches!(auth_middleware(&c, &bearer(), now + 5_000_000_000, 0), AuthStep::FindUser(_)));
    assert!(matches!(auth_middleware(&c, &bearer(), now + 60_000_000_000, 0), AuthStep::VerifyToken(_)));
}

#[test]
fn expired_token_is_not_served_from_memory() {
    let mut c = AuthCaches::new();
    let step = token_verified(&mut c, "tok".to_string(), Some(claims(None)), 7, 2_000_000, 0);
    assert!(matches!(step, AuthStep::CheckRevoked(_)));
    assert!(matches!(auth_middleware(&c, &bearer(), 7, 0), AuthStep::VerifyToken(_)));
}

#[test]
fn invalid_token_is_refused() {
    let mut c = AuthCaches::new();
    let step = token_verified(&mut c, "tok".to_string(), None, 1, 1, 0);
    assert!(matches!(step, AuthStep::Refuse(Status::Unauthorized)));
}

#[test]
fn revoked_token_is_refused_and_remembered() {
    let mut c = AuthCaches::new();
    token_verified(&mut c, "tok".to_string(), Some(claims(Some(1))), 10, 0, 0);
    let step = revocation_known(&mut c, claims(Some(1)), true, 10, 0);
    assert!(matches!(step, AuthStep::Refuse(Status::Unauthorized)));
    assert!(matches!(auth_middleware(&c, &bearer(), 11, 0), AuthStep::Refuse(Status::Unauthorized)));
    forget_revocation(&mut c, "j1");
    assert!(matches!(auth_middleware(&c, &bearer(), 12, 0), AuthStep::CheckRevoked(_)));
}

#[test]
fn disabled_user_is_refused() {
    let mut c = AuthCaches::new();
    let step = user_found(&mut c, subject(), Ok(Some(user(false))), 1, 0);
    assert!(matches!(step, AuthStep::Refuse(Status::Unauthorized)));
}

#[test]
fn missing_user_is_refused() {
    let mut c = AuthCaches::new();
    assert!(matches!(user_found(&mut c, subject(), Ok(None), 1, 0), AuthStep::Refuse(Status::Unauthorized)));
    let step = user_found(&mut c, subject(), Err(Status::Internal), 1, 0);
    assert!(matches!(step, AuthStep::Refuse(Status::Internal)));
}

#[test]
fn key_and_ticket_take_permissions_from_the_role() {
    let mut c = AuthCaches::new();
    let step = api_key_verified(&c, Ok(("u1".to_string(), "ci".to_string())), 1, 0);
    let s = match step {
        AuthStep::FindUser(s) => s,
        _ => panic!("the user is looked up next"),
    };
    assert_eq!(s.api_key_name.as_deref(), Some("ci"));
    let step = user_found(&mut c, s, Ok(Some(user(true))), 1, 0);
    let (s, u) = match step {
        AuthStep::ResolvePermissions(s, u) => (s, u),
        _ => panic!("the permissions are looked up next"),
    };
    let step = permissions_resolved(s, u, Some((9, "viewer".to_string())), 0);
    match step {
        AuthStep::Admit(a) => {
            assert_eq!(a.permissions, 9);
            assert_eq!(a.role, "viewer");
            assert_eq!(a.api_key_name.as_deref(), Some("ci"));
        },
        _ => panic!("the request goes on"),
    }
    assert!(matches!(api_key_verified(&c, Err(Status::Unauthorized), 1, 0), AuthStep::Refuse(Status::Unauthorized)));
    assert!(matches!(ticket_consumed(&c, Some("u1".to_string()), 2, 0), AuthStep::ResolvePermissions(_, _)));
    assert!(matches!(ticket_consumed(&c, None, 2, 0), AuthStep::Refuse(Status::Unauthorized)));
    let step = permissions_resolved(subject(), user(true), None, 0);
    assert!(matches!(step, AuthStep::Refuse(Status::Internal)));
}

#[test]
fn plugin_can_block_a_request() {
    let step = permissions_resolved(subject(), user(true), Some((1, "viewer".to_string())), 2);
    let a = match step {
        AuthStep::AskPlugins(a) => a,
        _ => panic!("the plugins are asked"),
    };
    assert!(matches!(plugins_answered(a.clone(), &vec![false, true]), AuthStep::Refuse(Status::Forbidden)));
    assert!(matches!(plugins_answered(a, &vec![false, false]), AuthStep::Admit(_)));
}

#[test]
fn many_tokens_are_swept() {
    let mut c = AuthCaches::new();
    for i in 0..10_000u32 {
        token_verified(&mut c, format!("t{i}"), Some(claims(None)), 0, 0, 0);
    }
    // At the limit, those that count no more make room.
    token_verified(&mut c, "late".to_string(), Some(claims(None)), 61_000_000_000, 0, 0);
    let mut r = request();
    r.authorization = Some(b"Bearer late".to_vec());
    assert!(matches!(auth_middleware(&c, &r, 61_000_000_001, 0), AuthStep::CheckRevoked(_)));
    r.authorization = Some(b"Bearer t5".to_vec());
    assert!(matches!(auth_middleware(&c, &r, 1, 0), AuthStep::VerifyToken(_)));
}

#[test]
fn permission_is_checked_bit_by_bit() {
    let a = AuthUser {
        user_id: "u".to_string(),
        username: "n".to_string(),
        permissions: 0b0110,
        role: "r".to_string(),
        api_key_name: None,
    };
    assert_eq!(perm_check(Some(&a), 0b0010), Ok(()));
    assert_eq!(perm_check(Some(&a), 0b1000), Err(Status::Forbidden));
    assert_eq!(perm_check(None, 0b0010), Err(Status::Unauthorized));
}

// Limiter

#[test]
fn login_limiter_prunes_expired_entries() {
    let mut limiter = LoginRateLimiter::with_limits(5, 1);
    limiter.record_failure("1.1.1.1", "alice", 0);
    limiter.record_failure("2.2.2.2", "bob", 0);
    assert_eq!(limiter.address_count(), 2);
    limiter.record_failure("3.3.3.3", "carol", 2 * SECOND);
    assert_eq!(limiter.address_count(), 1, "expired entries should have been pruned");
}

#[test]
fn five_failures_block() {
    let mut limiter = LoginRateLimiter::default();
    for i in 0..4 {
        assert!(!limiter.record_failure("10.0.0.1", "admin", i * SECOND));
        assert!(!limiter.is_blocked("10.0.0.1", "admin", i * SECOND));
    }
    assert!(limiter.record_failure("10.0.0.1", "admin", 4 * SECOND));
    assert!(limiter.is_blocked("10.0.0.1", "admin", 5 * SECOND));
}

#[test]
fn other_addresses_do_not_help() {
    let mut limiter = LoginRateLimiter::with_limits(3, 300);
    for i in 0..3 {
        limiter.record_failure(&format!("10.0.0.{i}"), "admin", 0);
    }
    assert!(limiter.is_blocked("10.9.9.9", "admin", 1));
    assert!(!limiter.is_blocked("10.9.9.9", "other", 1));
}

#[test]
fn block_ends_with_the_window() {
    let mut limiter = LoginRateLimiter::with_limits(1, 300);
    limiter.record_failure("10.0.0.1", "admin", 0);
    assert!(limiter.is_blocked("10.0.0.1", "admin", 300 * SECOND));
    assert!(limiter.is_blocked("10.0.0.1", "admin", 301 * SECOND - 1));
    assert!(!limiter.is_blocked("10.0.0.1", "admin", 301 * SECOND));
}

#[test]
fn clearing_unblocks() {
    let mut limiter = LoginRateLimiter::with_limits(0, -5);
    limiter.record_failure("10.0.0.1", "admin", 0);
    assert!(limiter.is_blocked("10.0.0.1", "admin", 0));
    limiter.clear("10.0.0.1", "admin");
    assert!(!limiter.is_blocked("10.0.0.1", "admin", 0));
}

#[test]
fn limiter_follows_the_settings() {
    let mut s = settings();
    s.max_login_attempts = 2;
    let mut limiter = login_limiter(&s);
    assert!(!limiter.record_failure("a", "u", 0));
    assert!(limiter.record_failure("a", "u", 0));
}
