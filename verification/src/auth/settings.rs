//! The settings of the authentication.

use vstd::prelude::*;

use crate::auth::limiter::LoginRateLimiter;

verus! {

/// The settings of the authentication.
#[derive(Clone, Copy, Debug, PartialEq, Eq, Structural)]
pub struct AuthSettings {
    pub access_token_expiry_mins: i64,
    pub refresh_token_expiry_days: i64,
    pub require_totp: bool,
    pub require_totp_for_oauth: bool,
    pub auto_create_oauth_users: bool,
    pub max_login_attempts: u32,
    pub lockout_duration_secs: u32,
    pub allow_registration: bool,
    /// How many characters a password has at least.
    pub password_min_length: u32,
}

/// The limit on failed logins that the settings ask for.
pub fn login_limiter(s: &AuthSettings) -> (r: LoginRateLimiter)
    ensures
        r.is_valid(),
        r.max() == (if s.max_login_attempts >= 1 {
            s.max_login_attempts
        } else {
            1
        }),
        r.window() == (if s.lockout_duration_secs >= 1 {
            s.lockout_duration_secs as i64
        } else {
            1
        }),
        r.ips() == Map::<Seq<char>, (u32, i64)>::empty(),
        r.users() == Map::<Seq<char>, (u32, i64)>::empty(),
{
    LoginRateLimiter::with_limits(s.max_login_attempts, s.lockout_duration_secs as i64)
}

/// The limits of the settings are taken over, each at least one, and nothing is counted yet.
pub proof fn limits_are_at_least_one(s: &AuthSettings, r: LoginRateLimiter)
    requires
        call_ensures(login_limiter, (s,), r),
    ensures
        s.max_login_attempts >= 1 ==> r.max() == s.max_login_attempts,
        r.max() >= 1,
        s.lockout_duration_secs >= 1 ==> r.window() == s.lockout_duration_secs,
        r.window() >= 1,
        r.ips().dom() == Set::<Seq<char>>::empty(),
        r.users().dom() == Set::<Seq<char>>::empty(),
{
}

} // verus!
