//! A change that has to be confirmed: unless that happens in time, the
//! configuration from before is put back.

use vstd::prelude::*;
use vstd::string::*;

use crate::number::{dec, fmt_u64};
use crate::status::Status;
use crate::text::cat3;

verus! {

/// A change that waits for its confirmation.
#[derive(Clone, Debug)]
pub struct Armed {
    /// The configuration from before the change, as JSON.
    pub rollback_config: String,
    /// When the time is up, in nanoseconds since 1970.
    pub expires_ns: i128,
    /// The same as text.
    pub expires_at: String,
    pub description: String,
}

/// What is shown of a change that waits.
#[derive(Clone, Debug)]
pub struct CommitConfirmState {
    pub active: bool,
    pub expires_at: String,
    pub seconds_remaining: u64,
    pub description: String,
}

/// The change that waits, if there is one. There is never more than one.
#[derive(Clone, Debug)]
pub struct CommitConfirm {
    pub armed: Option<Armed>,
}

/// The message that tells how long there is to confirm.
pub open spec fn armed_message(timeout_secs: nat) -> Seq<char> {
    "Commit confirm started. You have "@ + dec(timeout_secs)
        + " seconds to confirm. If you do not log in and confirm, the configuration will automatically revert."@
}

/// The seconds from `now` until `expires`, none where the time is up.
pub open spec fn seconds_left(expires: int, now: int) -> int {
    if expires <= now {
        0
    } else {
        (expires - now) / 1_000_000_000
    }
}

/// How long a request gives, and what it calls the change: five minutes and
/// `Config change` where it says nothing.
pub fn confirm_request(timeout_secs: Option<u64>, description: Option<String>) -> (r: (u64, String))
    ensures
        r.0 == match timeout_secs {
            Some(t) => t,
            None => 300u64,
        },
        r.1@ == match description {
            Some(d) => d@,
            None => "Config change"@,
        },
{
    let t: u64 = match timeout_secs {
        Some(t) => t,
        None => 300,
    };
    let d = match description {
        Some(d) => d,
        None => "Config change".to_owned(),
    };
    (t, d)
}

/// The configuration that is put back when the time is up.
pub open spec fn put_back(s: CommitConfirm) -> Option<String> {
    match s.armed {
        Some(a) => Some(a.rollback_config),
        None => None,
    }
}

/// The state after a confirmation.
pub open spec fn confirmed(s: CommitConfirm) -> CommitConfirm {
    CommitConfirm { armed: None }
}

/// The state after a change was armed, where none waits.
pub open spec fn armed_with(s: CommitConfirm, a: Armed) -> CommitConfirm {
    match s.armed {
        Some(_) => s,
        None => CommitConfirm { armed: Some(a) },
    }
}

/// A change that was confirmed is not put back; one that was not is put back
/// to what was there before it, however often another one is tried meanwhile.
pub proof fn unconfirmed_change_is_put_back(s: CommitConfirm, a: Armed, b: Armed)
    requires
        s.armed is None,
    ensures
        put_back(confirmed(armed_with(s, a))) is None,
        put_back(armed_with(armed_with(s, a), b)) == Some(a.rollback_config),
{
}

impl CommitConfirm {
    /// Nothing waits.
    pub fn new() -> (s: CommitConfirm)
        ensures
            s.armed is None,
    {
        CommitConfirm { armed: None }
    }

    /// Starts the wait for a confirmation. A change that waits already is never
    /// pushed aside: the request conflicts with it. `snapshot_valid` tells
    /// whether the snapshot is a configuration; one that is not could not be
    /// put back when the time is up, so it is refused at once.
    pub fn arm(
        &mut self,
        snapshot: String,
        snapshot_valid: bool,
        description: String,
        timeout_secs: u64,
        expires_ns: i128,
        expires_at: String,
    ) -> (r: Result<String, Status>)
        ensures
            r is Ok <==> old(self).armed is None && snapshot_valid,
            r matches Err(e) ==> e == if old(self).armed is Some {
                Status::Conflict
            } else {
                Status::Internal
            },
            r is Err ==> *final(self) == *old(self),
            r matches Ok(m) ==> {
                &&& m@ == armed_message(timeout_secs as nat)
                &&& *final(self) == armed_with(
                    *old(self),
                    (Armed { rollback_config: snapshot, expires_ns, expires_at, description }),
                )
            },
    {
        if self.armed.is_some() {
            return Err(Status::Conflict);
        }
        if !snapshot_valid {
            return Err(Status::Internal);
        }
        self.armed = Some(Armed { rollback_config: snapshot, expires_ns, expires_at, description });
        let n = fmt_u64(timeout_secs);
        Ok(
            cat3(
                "Commit confirm started. You have ",
                n.as_str(),
                " seconds to confirm. If you do not log in and confirm, the configuration will automatically revert.",
            ),
        )
    }

    /// Confirms the change that waits. Afterwards nothing waits, so nothing is
    /// put back.
    pub fn accept(&mut self) -> (m: String)
        ensures
            *final(self) == confirmed(*old(self)),
            m@ == if old(self).armed is Some {
                "Configuration confirmed and accepted permanently."@
            } else {
                "No pending commit confirm to accept."@
            },
    {
        let was = self.armed.is_some();
        self.armed = None;
        if was {
            "Configuration confirmed and accepted permanently.".to_owned()
        } else {
            "No pending commit confirm to accept.".to_owned()
        }
    }

    /// The time is up: gives the configuration to put back, unless the change
    /// was confirmed in the meantime.
    pub fn expire(&mut self) -> (r: Option<String>)
        ensures
            final(self).armed is None,
            r == put_back(*old(self)),
    {
        match self.armed.take() {
            Some(a) => Some(a.rollback_config),
            None => None,
        }
    }

    /// What there is to show at `now`.
    pub fn status(&self, now_ns: i128) -> (s: CommitConfirmState)
        requires
            self.armed is Some ==> i128::MIN <= self.armed->0.expires_ns - now_ns <= u64::MAX * 1_000_000_000,
        ensures
            s.active == self.armed is Some,
            match self.armed {
                Some(a) => s.expires_at == a.expires_at && s.description == a.description && s.seconds_remaining
                    == seconds_left(a.expires_ns as int, now_ns as int),
                None => s.expires_at@.len() == 0 && s.description@.len() == 0 && s.seconds_remaining == 0,
            },
    {
        match &self.armed {
            Some(a) => {
                let left: u64 = if a.expires_ns <= now_ns {
                    0
                } else {
                    let d: i128 = a.expires_ns - now_ns;
                    (d / 1_000_000_000) as u64
                };
                CommitConfirmState {
                    active: true,
                    expires_at: a.expires_at.clone(),
                    seconds_remaining: left,
                    description: a.description.clone(),
                }
            },
            None => CommitConfirmState {
                active: false,
                expires_at: String::new(),
                seconds_remaining: 0,
                description: String::new(),
            },
        }
    }
}

// ---------------------------------------------------------------------------
// Laws
// ---------------------------------------------------------------------------

/// How many seconds are left: whole ones, until the time is up.
pub proof fn seconds_run_down(expires: int, now: int)
    ensures
        now >= expires ==> seconds_left(expires, now) == 0,
        now < expires ==> 0 <= expires - now - seconds_left(expires, now) * 1_000_000_000 < 1_000_000_000,
        seconds_left(expires, now) >= 0,
{
}

/// Only one change waits at a time: another one is not armed over it. What is
/// put back is what was armed, and a confirmed change is not put back.
pub proof fn one_change_waits_at_a_time(s: CommitConfirm, a: Armed)
    ensures
        s.armed is Some ==> armed_with(s, a) == s,
        s.armed is None ==> put_back(armed_with(s, a)) == Some(a.rollback_config),
        put_back(confirmed(s)) is None,
        s.armed is None ==> put_back(s) is None,
{
}

/// The answer says how long there is to confirm.
pub proof fn answer_says_how_long(n: nat)
    ensures
        armed_message(n) == "Commit confirm started. You have "@ + dec(n)
            + " seconds to confirm. If you do not log in and confirm, the configuration will automatically revert."@,
{
}

/// A change is to be confirmed within the time that is asked for, five minutes otherwise.
pub proof fn confirmations_have_their_time(t: u64, d: String, r: (u64, String))
    ensures
        call_ensures(confirm_request, (Some(t), Some(d)), r) ==> r.0 == t && r.1@ == d@,
        call_ensures(confirm_request, (None::<u64>, None::<String>), r) ==> r.0 == 300 && r.1@ == "Config change"@,
{
}

/// A second change cannot be armed while one waits, and one without a valid snapshot cannot be at
/// all; neither changes what waits. Accepting and running out both end the wait.
pub proof fn confirmation_ends_the_wait(snapshot: String, valid: bool, description: String, timeout_secs: u64,
    expires_ns: i128, expires_at: String, r: Result<String, Status>, m: String, b: Option<String>)
    ensures
        forall|l: &mut CommitConfirm| #[trigger] call_ensures(CommitConfirm::arm, (l, snapshot, valid, description,
            timeout_secs, expires_ns, expires_at), r) ==> ((*l).armed is Some
            ==> r == Err::<String, Status>(Status::Conflict)) && ((*l).armed is None && !valid
            ==> r == Err::<String, Status>(Status::Internal)) && (r is Err ==> *final(l) == *l) && ((*l).armed is None
            && valid ==> r is Ok),
        forall|l: &mut CommitConfirm| #[trigger] call_ensures(CommitConfirm::accept, (l,), m) ==> ((*l).armed is Some
            ==> m@ == "Configuration confirmed and accepted permanently."@) && ((*l).armed is None
            ==> m@ == "No pending commit confirm to accept."@),
        forall|l: &mut CommitConfirm| #[trigger] call_ensures(CommitConfirm::expire, (l,), b)
            ==> final(l).armed is None,
{
}

} // verus!
