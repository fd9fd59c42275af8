//! Switching the resolver backend: write the target's files, stop the other
//! backend, start the target, probe it, and go back to what ran before where
//! the target does not answer.
//!
//! [`Switch`] holds the decisions. Whoever runs the switch asks it for the next
//! [`SwitchAction`], performs it, and hands back what happened.

use vstd::prelude::*;
use vstd::string::*;

use crate::kv::{put, rows, KeyValue};
use crate::status::{status_line, status_text, Status};
use crate::text::{cat2, cat3, cat5, same};

verus! {

/// The programs that can answer on port 53.
#[derive(Clone, Copy, Debug, PartialEq, Eq, Structural)]
pub enum Backend {
    Rdns,
    Unbound,
}

/// The backend that a name stands for.
pub open spec fn backend_of(s: Seq<char>) -> Option<Backend> {
    if s == "rdns"@ {
        Some(Backend::Rdns)
    } else if s == "unbound"@ {
        Some(Backend::Unbound)
    } else {
        None
    }
}

/// The name of a backend.
pub open spec fn backend_name(b: Backend) -> Seq<char> {
    match b {
        Backend::Rdns => "rdns"@,
        Backend::Unbound => "unbound"@,
    }
}

/// The service that runs a backend.
pub open spec fn service_name(b: Backend) -> Seq<char> {
    match b {
        Backend::Rdns => "rdns"@,
        Backend::Unbound => "local_unbound"@,
    }
}

/// The variable of `rc.conf` that enables a backend.
pub open spec fn enable_key(b: Backend) -> Seq<char> {
    match b {
        Backend::Rdns => "rdns_enable"@,
        Backend::Unbound => "local_unbound_enable"@,
    }
}

/// The other backend.
pub open spec fn other_of(b: Backend) -> Backend {
    match b {
        Backend::Rdns => Backend::Unbound,
        Backend::Unbound => Backend::Rdns,
    }
}

/// A name stands for the backend that has it.
pub proof fn backend_names_read_back(b: Backend)
    ensures
        backend_of(backend_name(b)) == Some(b),
{
    reveal_strlit("rdns");
    reveal_strlit("unbound");
    assert("rdns"@.len() == 4);
    assert("unbound"@.len() == 7);
}

/// The backend that a name stands for.
pub fn parse_backend(s: &str) -> (r: Option<Backend>)
    ensures
        r == backend_of(s@),
{
    if same(s, "rdns") {
        Some(Backend::Rdns)
    } else if same(s, "unbound") {
        Some(Backend::Unbound)
    } else {
        None
    }
}

/// The name of a backend.
pub fn name_of(b: Backend) -> (r: &'static str)
    ensures
        r@ == backend_name(b),
{
    match b {
        Backend::Rdns => "rdns",
        Backend::Unbound => "unbound",
    }
}

/// The service and the `rc.conf` variable of the backend named `b`.
pub fn backend_service(b: &str) -> (r: Option<(&'static str, &'static str)>)
    ensures
        match r {
            Some((service, key)) => backend_of(b@) is Some && service@ == service_name(backend_of(b@)->0) && key@
                == enable_key(backend_of(b@)->0),
            None => backend_of(b@) is None,
        },
{
    match parse_backend(b) {
        Some(Backend::Rdns) => Some(("rdns", "rdns_enable")),
        Some(Backend::Unbound) => Some(("local_unbound", "local_unbound_enable")),
        None => None,
    }
}

/// Where a switch stands: what is to be done next.
#[derive(Clone, Copy, Debug, PartialEq, Eq, Structural)]
pub enum Phase {
    CheckRdns,
    StopRdns,
    CheckUnbound,
    StopUnbound,
    Write,
    CheckOther,
    StopOther,
    Start,
    Probe,
    StopTarget,
    RestoreWrite,
    RestoreStart,
    RestoreProbe,
    Done,
}

/// What a switch asks for.
#[derive(Clone, Copy, Debug, PartialEq, Eq, Structural)]
pub enum SwitchAction {
    /// Read whether `rc.conf` enables the backend.
    ReadFlag(Backend),
    /// Stop the backend and disable it in `rc.conf`.
    Stop(Backend),
    /// Write the backend's configuration files.
    WriteConfig(Backend),
    /// Enable the backend in `rc.conf` and restart it.
    Start(Backend),
    /// Probe port 53 for up to eight seconds.
    Probe,
    /// Nothing is left to do but to report.
    Report,
}

/// What came of an action.
#[derive(Clone, Debug)]
pub enum SwitchEvent {
    Flag(bool),
    Stopped,
    Written,
    WriteFailed(Status),
    Started(String),
    StartFailed(String),
    Probed { udp: bool, tcp: bool },
}

/// How starting the target went, with what the service printed.
#[derive(Clone, Debug)]
pub enum StartResult {
    Up(String),
    Failed(String),
}

/// A switch under way.
#[derive(Clone, Debug)]
pub struct Switch {
    /// The backend that is asked for, as the settings name it.
    pub target: String,
    /// The backend that ran before, if it is known.
    pub previous: Option<Backend>,
    pub enabled: bool,
    pub probe_enabled: bool,
    pub phase: Phase,
    pub backend: Option<Backend>,
    /// Whether the target's files are in place.
    pub written: bool,
    pub write_error: Option<Status>,
    pub started: Option<StartResult>,
    pub udp: bool,
    pub tcp: bool,
    pub restored_udp: bool,
    pub restored_tcp: bool,
}

/// The outcome of an apply, as it is shown.
#[derive(Clone, Debug)]
pub struct ApplyReport {
    /// What runs now.
    pub backend: String,
    pub enabled: bool,
    pub probe_udp: bool,
    pub probe_tcp: bool,
    pub rolled_back: bool,
    /// What ran before the attempt.
    pub previous: Option<String>,
    pub message: String,
}

/// How a switch ended.
#[derive(Clone, Copy, Debug, PartialEq, Eq, Structural)]
pub enum Verdict {
    /// The resolver is off, both backends are stopped.
    Disabled,
    /// The target is no backend; nothing was touched.
    Unknown,
    /// The target's files could not be written; nothing was torn down.
    NotWritten(Status),
    /// The target answers.
    Healthy,
    /// The target does not answer and nothing ran before.
    Stranded,
    /// The target does not answer; what ran before was brought back.
    RolledBack(Backend),
}

/// A finished switch: the report, the rows to store, and whether the pending
/// change is taken care of.
#[derive(Clone, Debug)]
pub struct SwitchOutcome {
    pub report: ApplyReport,
    pub saves: Vec<KeyValue>,
    pub clears_pending: bool,
}

impl Switch {
    /// The states that a switch can be in.
    pub open spec fn wf(&self) -> bool {
        let on_target = self.phase == Phase::Write || self.phase == Phase::CheckOther || self.phase == Phase::StopOther
            || self.phase == Phase::Start || self.phase == Phase::Probe || self.phase == Phase::StopTarget
            || self.phase == Phase::RestoreWrite || self.phase == Phase::RestoreStart || self.phase
            == Phase::RestoreProbe;
        let behind_write = on_target && self.phase != Phase::Write;
        let restoring = self.phase == Phase::RestoreWrite || self.phase == Phase::RestoreStart || self.phase
            == Phase::RestoreProbe;
        &&& self.backend == backend_of(self.target@)
        &&& on_target ==> self.enabled && self.backend is Some
        &&& !on_target && self.phase != Phase::Done ==> !self.enabled
        &&& behind_write ==> self.written
        &&& self.phase == Phase::Write ==> !self.written
        &&& self.write_error is Some ==> !self.written
        &&& restoring ==> self.previous is Some
        &&& on_target ==> self.write_error is None && !self.udp
        &&& self.phase == Phase::Probe ==> self.started is Some
        &&& self.phase == Phase::StopTarget || restoring ==> self.started is Some
        &&& self.phase == Phase::Done && self.enabled && self.backend is Some ==> self.written || self.write_error is Some
        &&& self.phase == Phase::Done && self.enabled && self.written ==> self.started is Some
        &&& self.udp ==> self.started is Some && self.enabled && self.written
        &&& self.written ==> self.enabled && self.backend is Some
    }

    /// The action that the phase asks for.
    pub open spec fn next_action(&self) -> SwitchAction {
        match self.phase {
            Phase::CheckRdns => SwitchAction::ReadFlag(Backend::Rdns),
            Phase::StopRdns => SwitchAction::Stop(Backend::Rdns),
            Phase::CheckUnbound => SwitchAction::ReadFlag(Backend::Unbound),
            Phase::StopUnbound => SwitchAction::Stop(Backend::Unbound),
            Phase::Write => SwitchAction::WriteConfig(self.backend->0),
            Phase::CheckOther => SwitchAction::ReadFlag(other_of(self.backend->0)),
            Phase::StopOther => SwitchAction::Stop(other_of(self.backend->0)),
            Phase::Start => SwitchAction::Start(self.backend->0),
            Phase::Probe => SwitchAction::Probe,
            Phase::StopTarget => SwitchAction::Stop(self.backend->0),
            Phase::RestoreWrite => SwitchAction::WriteConfig(self.previous->0),
            Phase::RestoreStart => SwitchAction::Start(self.previous->0),
            Phase::RestoreProbe => SwitchAction::Probe,
            Phase::Done => SwitchAction::Report,
        }
    }

    /// `e` is an answer to the action that the phase asks for.
    pub open spec fn answers(&self, e: SwitchEvent) -> bool {
        match self.next_action() {
            SwitchAction::ReadFlag(_) => e is Flag,
            SwitchAction::Stop(_) => e is Stopped,
            SwitchAction::WriteConfig(_) => e is Written || e is WriteFailed,
            SwitchAction::Start(_) => e is Started || e is StartFailed,
            SwitchAction::Probe => e is Probed,
            SwitchAction::Report => false,
        }
    }

    /// Where the switch goes from its phase when `e` happens.
    pub open spec fn next_phase(&self, e: SwitchEvent) -> Phase {
        match self.phase {
            Phase::CheckRdns => if e == SwitchEvent::Flag(true) {
                Phase::StopRdns
            } else {
                Phase::CheckUnbound
            },
            Phase::StopRdns => Phase::CheckUnbound,
            Phase::CheckUnbound => if e == SwitchEvent::Flag(true) {
                Phase::StopUnbound
            } else {
                Phase::Done
            },
            Phase::StopUnbound => Phase::Done,
            Phase::Write => if e is Written {
                Phase::CheckOther
            } else {
                Phase::Done
            },
            Phase::CheckOther => if e == SwitchEvent::Flag(true) {
                Phase::StopOther
            } else {
                Phase::Start
            },
            Phase::StopOther => Phase::Start,
            Phase::Start => if self.probe_enabled {
                Phase::Probe
            } else if e is Started {
                Phase::Done
            } else {
                Phase::StopTarget
            },
            Phase::Probe => if e->udp {
                Phase::Done
            } else {
                Phase::StopTarget
            },
            Phase::StopTarget => if self.previous is Some {
                Phase::RestoreWrite
            } else {
                Phase::Done
            },
            Phase::RestoreWrite => Phase::RestoreStart,
            Phase::RestoreStart => Phase::RestoreProbe,
            Phase::RestoreProbe => Phase::Done,
            Phase::Done => Phase::Done,
        }
    }

    /// Starts a switch to `target`. A resolver that is off has both backends
    /// torn down; a target that is no backend ends the switch at once.
    pub fn begin(target: String, previous: Option<Backend>, enabled: bool, probe_enabled: bool) -> (s: Switch)
        ensures
            s.wf(),
            s.target == target,
            s.previous == previous,
            s.enabled == enabled,
            s.probe_enabled == probe_enabled,
            s.phase == if !enabled {
                Phase::CheckRdns
            } else if backend_of(target@) is Some {
                Phase::Write
            } else {
                Phase::Done
            },
    {
        let backend = parse_backend(target.as_str());
        let phase = if !enabled {
            Phase::CheckRdns
        } else {
            match backend {
                Some(_) => Phase::Write,
                None => Phase::Done,
            }
        };
        Switch {
            target,
            previous,
            enabled,
            probe_enabled,
            phase,
            backend,
            written: false,
            write_error: None,
            started: None,
            udp: false,
            tcp: false,
            restored_udp: false,
            restored_tcp: false,
        }
    }

    /// What to do next. Nothing is stopped or started on the way to a target
    /// before its files are in place.
    pub fn action(&self) -> (a: SwitchAction)
        requires
            self.wf(),
        ensures
            a == self.next_action(),
            self.enabled && (a is Stop || a is Start) ==> self.written,
    {
        let target = match self.backend {
            Some(b) => b,
            None => Backend::Rdns,
        };
        let before = match self.previous {
            Some(b) => b,
            None => Backend::Rdns,
        };
        let other = match target {
            Backend::Rdns => Backend::Unbound,
            Backend::Unbound => Backend::Rdns,
        };
        match self.phase {
            Phase::CheckRdns => SwitchAction::ReadFlag(Backend::Rdns),
            Phase::StopRdns => SwitchAction::Stop(Backend::Rdns),
            Phase::CheckUnbound => SwitchAction::ReadFlag(Backend::Unbound),
            Phase::StopUnbound => SwitchAction::Stop(Backend::Unbound),
            Phase::Write => SwitchAction::WriteConfig(target),
            Phase::CheckOther => SwitchAction::ReadFlag(other),
            Phase::StopOther => SwitchAction::Stop(other),
            Phase::Start => SwitchAction::Start(target),
            Phase::Probe => SwitchAction::Probe,
            Phase::StopTarget => SwitchAction::Stop(target),
            Phase::RestoreWrite => SwitchAction::WriteConfig(before),
            Phase::RestoreStart => SwitchAction::Start(before),
            Phase::RestoreProbe => SwitchAction::Probe,
            Phase::Done => SwitchAction::Report,
        }
    }

    /// Takes note of what came of the action.
    pub fn observe(&mut self, e: SwitchEvent)
        requires
            old(self).wf(),
            old(self).answers(e),
        ensures
            final(self).wf(),
            final(self).phase == old(self).next_phase(e),
            final(self).target == old(self).target,
            final(self).previous == old(self).previous,
            final(self).enabled == old(self).enabled,
            final(self).probe_enabled == old(self).probe_enabled,
            final(self).backend == old(self).backend,
            final(self).written == (old(self).written || (old(self).phase == Phase::Write && e is Written)),
            final(self).write_error == if old(self).phase == Phase::Write && e is WriteFailed {
                Some(e->WriteFailed_0)
            } else {
                old(self).write_error
            },
            final(self).started == if old(self).phase == Phase::Start {
                Some(
                    match e {
                        SwitchEvent::Started(t) => StartResult::Up(t),
                        SwitchEvent::StartFailed(t) => StartResult::Failed(t),
                        _ => arbitrary(),
                    },
                )
            } else {
                old(self).started
            },
            final(self).udp == if old(self).phase == Phase::Start {
                !old(self).probe_enabled && e is Started
            } else if old(self).phase == Phase::Probe {
                e->udp
            } else {
                old(self).udp
            },
            final(self).tcp == if old(self).phase == Phase::Probe {
                e->tcp
            } else {
                old(self).tcp
            },
            final(self).restored_udp == if old(self).phase == Phase::RestoreProbe {
                e->udp
            } else {
                old(self).restored_udp
            },
            final(self).restored_tcp == if old(self).phase == Phase::RestoreProbe {
                e->tcp
            } else {
                old(self).restored_tcp
            },
    {
        match e {
            SwitchEvent::Flag(on) => {
                self.phase = match self.phase {
                    Phase::CheckRdns => if on {
                        Phase::StopRdns
                    } else {
                        Phase::CheckUnbound
                    },
                    Phase::CheckUnbound => if on {
                        Phase::StopUnbound
                    } else {
                        Phase::Done
                    },
                    _ => if on {
                        Phase::StopOther
                    } else {
                        Phase::Start
                    },
                };
            },
            SwitchEvent::Stopped => {
                self.phase = match self.phase {
                    Phase::StopRdns => Phase::CheckUnbound,
                    Phase::StopUnbound => Phase::Done,
                    Phase::StopOther => Phase::Start,
                    _ => match self.previous {
                        Some(_) => Phase::RestoreWrite,
                        None => Phase::Done,
                    },
                };
            },
            SwitchEvent::Written => {
                if self.phase == Phase::Write {
                    self.written = true;
                    self.phase = Phase::CheckOther;
                } else {
                    self.phase = Phase::RestoreStart;
                }
            },
            SwitchEvent::WriteFailed(code) => {
                if self.phase == Phase::Write {
                    self.write_error = Some(code);
                    self.phase = Phase::Done;
                } else {
                    self.phase = Phase::RestoreStart;
                }
            },
            SwitchEvent::Started(text) => {
                if self.phase == Phase::Start {
                    self.started = Some(StartResult::Up(text));
                    if self.probe_enabled {
                        self.phase = Phase::Probe;
                    } else {
                        self.udp = true;
                        self.phase = Phase::Done;
                    }
                } else {
                    self.phase = Phase::RestoreProbe;
                }
            },
            SwitchEvent::StartFailed(text) => {
                if self.phase == Phase::Start {
                    self.started = Some(StartResult::Failed(text));
                    if self.probe_enabled {
                        self.phase = Phase::Probe;
                    } else {
                        self.phase = Phase::StopTarget;
                    }
                } else {
                    self.phase = Phase::RestoreProbe;
                }
            },
            SwitchEvent::Probed { udp, tcp } => {
                if self.phase == Phase::Probe {
                    self.udp = udp;
                    self.tcp = tcp;
                    self.phase = if udp {
                        Phase::Done
                    } else {
                        Phase::StopTarget
                    };
                } else {
                    self.restored_udp = udp;
                    self.restored_tcp = tcp;
                    self.phase = Phase::Done;
                }
            },
        }
    }

    /// How a finished switch ended.
    pub open spec fn verdict(&self) -> Verdict {
        if !self.enabled {
            Verdict::Disabled
        } else if self.backend is None {
            Verdict::Unknown
        } else if self.write_error is Some {
            Verdict::NotWritten(self.write_error->0)
        } else if self.udp {
            Verdict::Healthy
        } else if self.previous is None {
            Verdict::Stranded
        } else {
            Verdict::RolledBack(self.previous->0)
        }
    }

    /// Why the target did not come up.
    pub open spec fn failure(&self) -> Seq<char> {
        match self.started->0 {
            StartResult::Up(_) => "no response on :53 after 8s"@,
            StartResult::Failed(t) => if t@.len() == 0 {
                "service start failed with no output"@
            } else {
                t@
            },
        }
    }

    /// What the service printed when it came up, behind a colon.
    pub open spec fn start_note(&self) -> Seq<char> {
        match self.started->0 {
            StartResult::Up(t) => if t@.len() == 0 {
                Seq::<char>::empty()
            } else {
                ": "@ + t@
            },
            StartResult::Failed(_) => Seq::<char>::empty(),
        }
    }

    /// The sentence that reports the end of a switch.
    pub open spec fn message(&self) -> Seq<char> {
        match self.verdict() {
            Verdict::Disabled => "DNS resolver stopped"@,
            Verdict::Unknown => "unknown backend: "@ + self.target@,
            Verdict::NotWritten(code) => "config generation failed ("@ + status_line(code) + ")"@,
            Verdict::Healthy => self.target@ + " applied and healthy"@ + self.start_note(),
            Verdict::Stranded => self.target@ + " failed to start ("@ + self.failure()
                + "); no previous backend to restore"@,
            Verdict::RolledBack(p) => self.target@ + " failed probe ("@ + self.failure() + "); rolled back to "@
                + backend_name(p) + if self.restored_udp {
                Seq::<char>::empty()
            } else {
                " (WARNING: previous backend also not responding)"@
            },
        }
    }

    /// What runs after the switch.
    pub open spec fn running(&self) -> Seq<char> {
        match self.verdict() {
            Verdict::Disabled => "none"@,
            Verdict::Unknown | Verdict::NotWritten(_) => match self.previous {
                Some(p) => backend_name(p),
                None => "none"@,
            },
            Verdict::Healthy => self.target@,
            Verdict::Stranded => "none"@,
            Verdict::RolledBack(p) => backend_name(p),
        }
    }

    /// The rows that record the switch. The moment is that of the last switch
    /// that succeeded or was rolled back.
    pub open spec fn saved_rows(&self, now: Seq<char>) -> Seq<(Seq<char>, Seq<char>)> {
        let e = Seq::<(Seq<char>, Seq<char>)>::empty();
        match self.verdict() {
            Verdict::Disabled => e.push(("last_applied_backend"@, "none"@)).push(("last_switch_at"@, now)).push(
                ("last_switch_result"@, "ok_disabled"@),
            ),
            Verdict::Unknown => e,
            Verdict::NotWritten(_) => e.push(("last_switch_result"@, "failed: config generation error"@)),
            Verdict::Healthy => e.push(("last_applied_backend"@, self.target@)).push(("last_switch_at"@, now)).push(
                ("last_switch_result"@, "ok"@),
            ),
            Verdict::Stranded => e.push(("last_applied_backend"@, "none"@)).push(
                ("last_switch_result"@, "failed: "@ + self.message()),
            ),
            Verdict::RolledBack(p) => e.push(("backend"@, backend_name(p))).push(
                ("last_applied_backend"@, backend_name(p)),
            ).push(("last_switch_at"@, now)).push(("last_switch_result"@, "rolled_back: "@ + self.message())),
        }
    }

    fn decide(&self) -> (v: Verdict)
        ensures
            v == self.verdict(),
    {
        if !self.enabled {
            return Verdict::Disabled;
        }
        if self.backend.is_none() {
            return Verdict::Unknown;
        }
        match self.write_error {
            Some(code) => {
                return Verdict::NotWritten(code);
            },
            None => {},
        }
        if self.udp {
            return Verdict::Healthy;
        }
        match self.previous {
            Some(p) => Verdict::RolledBack(p),
            None => Verdict::Stranded,
        }
    }

    fn failure_text(&self) -> (r: String)
        requires
            self.started is Some,
        ensures
            r@ == self.failure(),
    {
        match &self.started {
            Some(StartResult::Failed(t)) => if t.as_str().is_empty() {
                "service start failed with no output".to_owned()
            } else {
                t.clone()
            },
            _ => "no response on :53 after 8s".to_owned(),
        }
    }

    fn note_text(&self) -> (r: String)
        requires
            self.started is Some,
        ensures
            r@ == self.start_note(),
    {
        match &self.started {
            Some(StartResult::Up(t)) => if t.as_str().is_empty() {
                String::new()
            } else {
                cat2(": ", t.as_str())
            },
            _ => String::new(),
        }
    }

    fn message_text(&self) -> (r: String)
        requires
            self.wf(),
            self.phase == Phase::Done,
        ensures
            r@ == self.message(),
    {
        let target = self.target.as_str();
        match self.decide() {
            Verdict::Disabled => "DNS resolver stopped".to_owned(),
            Verdict::Unknown => cat2("unknown backend: ", target),
            Verdict::NotWritten(code) => cat3("config generation failed (", status_text(code), ")"),
            Verdict::Healthy => {
                let note = self.note_text();
                cat3(target, " applied and healthy", note.as_str())
            },
            Verdict::Stranded => {
                let why = self.failure_text();
                let mut m = cat3(target, " failed to start (", why.as_str());
                m.append("); no previous backend to restore");
                m
            },
            Verdict::RolledBack(p) => {
                let why = self.failure_text();
                let mut m = cat5(target, " failed probe (", why.as_str(), "); rolled back to ", name_of(p));
                if self.restored_udp {
                    assert(m@ + Seq::<char>::empty() =~= m@);
                } else {
                    m.append(" (WARNING: previous backend also not responding)");
                }
                m
            },
        }
    }

    /// Reports a finished switch, recorded at `now`.
    pub fn finish(&self, now: &str) -> (o: SwitchOutcome)
        requires
            self.wf(),
            self.phase == Phase::Done,
        ensures
            o.report.backend@ == self.running(),
            o.report.enabled == self.enabled,
            o.report.probe_udp == match self.verdict() {
                Verdict::Healthy => true,
                Verdict::RolledBack(_) => self.restored_udp,
                _ => false,
            },
            o.report.probe_tcp == match self.verdict() {
                Verdict::Healthy | Verdict::Stranded => self.tcp,
                Verdict::RolledBack(_) => self.restored_tcp,
                _ => false,
            },
            o.report.rolled_back == (self.verdict() is RolledBack),
            match o.report.previous {
                Some(t) => self.previous is Some && t@ == backend_name(self.previous->0),
                None => self.previous is None,
            },
            o.report.message@ == self.message(),
            rows(o.saves@) == self.saved_rows(now@),
            o.clears_pending == match self.verdict() {
                Verdict::Unknown | Verdict::NotWritten(_) => false,
                _ => true,
            },
    {
        let verdict = self.decide();
        let message = self.message_text();
        let before: &str = match self.previous {
            Some(p) => name_of(p),
            None => "none",
        };
        let backend: &str = match verdict {
            Verdict::Disabled => "none",
            Verdict::Healthy => self.target.as_str(),
            Verdict::Unknown | Verdict::NotWritten(_) => before,
            Verdict::Stranded => "none",
            Verdict::RolledBack(p) => name_of(p),
        };
        let mut saves: Vec<KeyValue> = Vec::new();
        assert(rows(saves@) =~= Seq::<(Seq<char>, Seq<char>)>::empty());
        match verdict {
            Verdict::Disabled => {
                put(&mut saves, "last_applied_backend", "none");
                put(&mut saves, "last_switch_at", now);
                put(&mut saves, "last_switch_result", "ok_disabled");
            },
            Verdict::Unknown => {},
            Verdict::NotWritten(_) => {
                put(&mut saves, "last_switch_result", "failed: config generation error");
            },
            Verdict::Healthy => {
                put(&mut saves, "last_applied_backend", self.target.as_str());
                put(&mut saves, "last_switch_at", now);
                put(&mut saves, "last_switch_result", "ok");
            },
            Verdict::Stranded => {
                let result = cat2("failed: ", message.as_str());
                put(&mut saves, "last_applied_backend", "none");
                put(&mut saves, "last_switch_result", result.as_str());
            },
            Verdict::RolledBack(p) => {
                let result = cat2("rolled_back: ", message.as_str());
                put(&mut saves, "backend", name_of(p));
                put(&mut saves, "last_applied_backend", name_of(p));
                put(&mut saves, "last_switch_at", now);
                put(&mut saves, "last_switch_result", result.as_str());
            },
        }
        let (probe_udp, probe_tcp) = match verdict {
            Verdict::Healthy => (true, self.tcp),
            Verdict::Stranded => (false, self.tcp),
            Verdict::RolledBack(_) => (self.restored_udp, self.restored_tcp),
            _ => (false, false),
        };
        let rolled_back = match verdict {
            Verdict::RolledBack(_) => true,
            _ => false,
        };
        let clears_pending = match verdict {
            Verdict::Unknown | Verdict::NotWritten(_) => false,
            _ => true,
        };
        let previous = match self.previous {
            Some(p) => Some(name_of(p).to_owned()),
            None => None,
        };
        SwitchOutcome {
            report: ApplyReport {
                backend: backend.to_owned(),
                enabled: self.enabled,
                probe_udp,
                probe_tcp,
                rolled_back,
                previous,
                message,
            },
            saves,
            clears_pending,
        }
    }
}

/// How many actions a switch in this phase has left at most.
pub open spec fn steps_left(p: Phase) -> nat {
    match p {
        Phase::CheckRdns => 4,
        Phase::StopRdns => 3,
        Phase::CheckUnbound => 2,
        Phase::StopUnbound => 1,
        Phase::Write => 9,
        Phase::CheckOther => 8,
        Phase::StopOther => 7,
        Phase::Start => 6,
        Phase::Probe => 5,
        Phase::StopTarget => 4,
        Phase::RestoreWrite => 3,
        Phase::RestoreStart => 2,
        Phase::RestoreProbe => 1,
        Phase::Done => 0,
    }
}

/// A switch comes to its end: every answer leaves fewer actions to do, at
/// most nine in all.
pub proof fn switch_ends(s: Switch, e: SwitchEvent)
    requires
        s.wf(),
        s.answers(e),
    ensures
        steps_left(s.next_phase(e)) < steps_left(s.phase) <= 9,
{
}

/// A target that does not answer never takes the place of a backend that ran
/// before: what ran before is what is reported to run.
pub proof fn failed_target_is_rolled_back(s: Switch)
    requires
        s.wf(),
        s.phase == Phase::Done,
        s.enabled,
        s.backend is Some,
    ensures
        s.udp <==> s.verdict() == Verdict::Healthy,
        s.udp ==> s.running() == s.target@,
        !s.udp && s.previous is Some ==> s.running() == backend_name(s.previous->0),
        !s.udp && s.previous is None ==> s.running() == "none"@,
        s.written && !s.udp && s.previous is Some ==> s.verdict() == Verdict::RolledBack(s.previous->0),
        !s.written ==> s.verdict() is NotWritten,
{
}

/// On the way back the backend that ran before gets its files, is started and
/// is probed, in this order, whatever comes of each.
pub proof fn rollback_goes_through(s: Switch, e: SwitchEvent)
    requires
        s.wf(),
        s.answers(e),
        s.previous is Some,
    ensures
        s.phase == Phase::StopTarget ==> s.next_phase(e) == Phase::RestoreWrite,
        s.phase == Phase::RestoreWrite ==> s.next_phase(e) == Phase::RestoreStart && s.next_action()
            == SwitchAction::WriteConfig(s.previous->0),
        s.phase == Phase::RestoreStart ==> s.next_phase(e) == Phase::RestoreProbe && s.next_action()
            == SwitchAction::Start(s.previous->0),
        s.phase == Phase::RestoreProbe ==> s.next_phase(e) == Phase::Done && s.next_action() == SwitchAction::Probe,
{
}

/// Where the log of a backend is looked for.
#[derive(Clone, Copy, Debug)]
pub struct LogSource {
    pub primary: &'static str,
    pub fallback: &'static str,
    /// The word that a line of the log holds.
    pub term: &'static str,
    /// How many lines are looked at.
    pub scan: usize,
    /// How many lines are shown.
    pub keep: usize,
}

/// Where the log of the backend is looked for.
pub fn resolver_logs(backend: &str) -> (r: LogSource)
    ensures
        r.primary@ == (if backend@ == "rdns"@ {
            "/var/log/rdns/rdns.log"@
        } else {
            "/var/log/unbound.log"@
        }),
        r.fallback@ == "/var/log/messages"@,
        r.term@ == (if backend@ == "rdns"@ {
            "rdns"@
        } else {
            "unbound"@
        }),
        r.scan == 5000,
        r.keep == 200,
{
    let (primary, term) = if same(backend, "rdns") {
        ("/var/log/rdns/rdns.log", "rdns")
    } else {
        ("/var/log/unbound.log", "unbound")
    };
    LogSource { primary, fallback: "/var/log/messages", term, scan: 5000, keep: 200 }
}

// ---------------------------------------------------------------------------
// Laws
// ---------------------------------------------------------------------------

/// Each backend has its own name, service and setting, and no other name is one of a backend.
pub proof fn backends_have_their_names(s: Seq<char>)
    ensures
        backend_of("rdns"@) == Some(Backend::Rdns),
        backend_of("unbound"@) == Some(Backend::Unbound),
        s != "rdns"@ && s != "unbound"@ ==> backend_of(s) is None,
        service_name(Backend::Rdns) == "rdns"@,
        service_name(Backend::Unbound) == "local_unbound"@,
        enable_key(Backend::Rdns) == service_name(Backend::Rdns) + "_enable"@,
        enable_key(Backend::Unbound) == service_name(Backend::Unbound) + "_enable"@,
        other_of(Backend::Rdns) == Backend::Unbound,
        other_of(Backend::Unbound) == Backend::Rdns,
{
    backend_names_read_back(Backend::Rdns);
    backend_names_read_back(Backend::Unbound);
    reveal_strlit("rdns");
    reveal_strlit("local_unbound");
    reveal_strlit("rdns_enable");
    reveal_strlit("local_unbound_enable");
    reveal_strlit("_enable");
    assert("rdns_enable"@ =~= "rdns"@ + "_enable"@);
    assert("local_unbound_enable"@ =~= "local_unbound"@ + "_enable"@);
}

/// On the way to a target its files are written, the other backend is stopped where it is
/// enabled, and the target is started and probed; a target that fails is stopped again.
pub proof fn target_is_started_and_the_other_stopped(s: Switch, e: SwitchEvent, b: Backend)
    requires
        s.wf(),
        s.answers(e) || s.phase == Phase::Done,
        s.backend == Some(b),
    ensures
        s.phase == Phase::Write ==> s.next_action() == SwitchAction::WriteConfig(b),
        s.phase == Phase::Write && e is Written ==> s.next_phase(e) == Phase::CheckOther,
        s.phase == Phase::Write && e is WriteFailed ==> s.next_phase(e) == Phase::Done,
        s.phase == Phase::CheckOther || s.phase == Phase::StopOther ==> (b == Backend::Rdns
            ==> s.next_action() == (if s.phase
            == Phase::CheckOther { SwitchAction::ReadFlag(Backend::Unbound) } else { SwitchAction::Stop(Backend::Unbound) })),
        s.phase == Phase::CheckOther || s.phase == Phase::StopOther ==> (b == Backend::Unbound
            ==> s.next_action() == (if s.phase
            == Phase::CheckOther { SwitchAction::ReadFlag(Backend::Rdns) } else { SwitchAction::Stop(Backend::Rdns) })),
        s.phase == Phase::CheckOther && e == SwitchEvent::Flag(true) ==> s.next_phase(e) == Phase::StopOther,
        s.phase == Phase::CheckOther && e == SwitchEvent::Flag(false) ==> s.next_phase(e) == Phase::Start,
        s.phase == Phase::StopOther ==> s.next_phase(e) == Phase::Start,
        s.phase == Phase::Start ==> s.next_action() == SwitchAction::Start(b),
        s.phase == Phase::Start && s.probe_enabled ==> s.next_phase(e) == Phase::Probe,
        s.phase == Phase::Start && !s.probe_enabled && e is Started ==> s.next_phase(e) == Phase::Done,
        s.phase == Phase::Start && !s.probe_enabled && e is StartFailed ==> s.next_phase(e) == Phase::StopTarget,
        s.phase == Phase::Probe ==> s.next_action() == SwitchAction::Probe,
        s.phase == Phase::Probe ==> (e matches SwitchEvent::Probed { udp, tcp }
            ==> s.next_phase(e) == (if udp { Phase::Done } else { Phase::StopTarget })),
        s.phase == Phase::StopTarget ==> s.next_action() == SwitchAction::Stop(b),
        s.phase == Phase::StopTarget && s.previous is None ==> s.next_phase(e) == Phase::Done,
        s.phase == Phase::Done ==> s.next_action() == SwitchAction::Report,
{
}

/// A resolver that is switched off stops each backend that is enabled, one after the other.
pub proof fn disabled_resolver_stops_both(s: Switch, e: SwitchEvent)
    ensures
        s.phase == Phase::CheckRdns ==> s.next_action() == SwitchAction::ReadFlag(Backend::Rdns)
            && s.next_phase(e) == (if e == SwitchEvent::Flag(true) { Phase::StopRdns } else { Phase::CheckUnbound }),
        s.phase == Phase::StopRdns ==> s.next_action() == SwitchAction::Stop(Backend::Rdns)
            && s.next_phase(e) == Phase::CheckUnbound,
        s.phase == Phase::CheckUnbound ==> s.next_action() == SwitchAction::ReadFlag(Backend::Unbound)
            && s.next_phase(e) == (if e == SwitchEvent::Flag(true) { Phase::StopUnbound } else { Phase::Done }),
        s.phase == Phase::StopUnbound ==> s.next_action() == SwitchAction::Stop(Backend::Unbound)
            && s.next_phase(e) == Phase::Done,
{
}

/// An action is answered by what can come of it, and by nothing else.
pub proof fn actions_get_their_answers(s: Switch, e: SwitchEvent)
    ensures
        s.next_action() is ReadFlag ==> (s.answers(e) <==> e is Flag),
        s.next_action() is Stop ==> (s.answers(e) <==> e is Stopped),
        s.next_action() is WriteConfig ==> (s.answers(e) <==> e is Written || e is WriteFailed),
        s.next_action() is Start ==> (s.answers(e) <==> e is Started || e is StartFailed),
        s.next_action() is Probe ==> (s.answers(e) <==> e is Probed),
        s.next_action() is Report ==> !s.answers(e),
{
}

/// The outcome says what was reached: switched off, an unknown target, files that could not be
/// written, a target that answers, one that failed with nothing to go back to, and one that
/// failed and was rolled back.
pub proof fn outcome_is_told(s: Switch)
    ensures
        !s.enabled ==> s.message() == "DNS resolver stopped"@ && s.running() == "none"@,
        s.enabled && s.backend is None ==> s.message() == "unknown backend: "@ + s.target@,
        s.enabled && s.backend is Some ==> (s.write_error matches Some(code)
            ==> s.message() == "config generation failed ("@ + status_line(code) + ")"@),
        s.enabled && (s.backend is None || s.write_error is Some) ==> (s.previous matches Some(p)
            ==> s.running() == backend_name(p)),
        s.enabled && (s.backend is None || s.write_error is Some) && s.previous is None ==> s.running() == "none"@,
        s.enabled && s.backend is Some && s.write_error is None && s.udp
            ==> s.message() == s.target@ + " applied and healthy"@ + s.start_note() && s.running() == s.target@,
        s.enabled && s.backend is Some && s.write_error is None && !s.udp && s.previous is None
            ==> s.message() == s.target@ + " failed to start ("@ + s.failure() + "); no previous backend to restore"@
            && s.running() == "none"@,
        s.enabled && s.backend is Some && s.write_error is None && !s.udp && s.restored_udp
            ==> (s.previous matches Some(p)
            ==> s.message() == s.target@ + " failed probe ("@ + s.failure() + "); rolled back to "@ + backend_name(p)
            && s.running() == backend_name(p)),
        s.enabled && s.backend is Some && s.write_error is None && !s.udp && !s.restored_udp
            ==> (s.previous matches Some(p)
            ==> s.message() == s.target@ + " failed probe ("@ + s.failure() + "); rolled back to "@ + backend_name(p)
            + " (WARNING: previous backend also not responding)"@ && s.running() == backend_name(p)),
{
    if s.previous is Some {
        let t = s.target@ + " failed probe ("@ + s.failure() + "); rolled back to "@ + backend_name(s.previous->0);
        assert(t + Seq::<char>::empty() =~= t);
    }
}

/// A start that printed something is quoted; a failure without words is told as such, and a
/// start that went through failed for want of an answer.
pub proof fn starts_are_told(s: Switch, t: String)
    ensures
        s.started == Some(StartResult::Up(t)) ==> s.failure() == "no response on :53 after 8s"@,
        s.started == Some(StartResult::Failed(t)) && t@.len() > 0 ==> s.failure() == t@,
        s.started == Some(StartResult::Failed(t)) && t@.len() == 0
            ==> s.failure() == "service start failed with no output"@,
        s.started == Some(StartResult::Up(t)) && t@.len() > 0 ==> s.start_note() == ": "@ + t@,
        s.started == Some(StartResult::Up(t)) && t@.len() == 0 ==> s.start_note().len() == 0,
{
}

/// What runs is stored as what was last applied, with the moment and the result; a rollback
/// also makes what ran before the chosen backend again. An unknown target stores nothing.
pub proof fn outcome_is_stored(s: Switch, now: Seq<char>)
    ensures
        !s.enabled ==> s.saved_rows(now) == seq![("last_applied_backend"@, "none"@), ("last_switch_at"@, now),
            ("last_switch_result"@, "ok_disabled"@)],
        s.enabled && s.backend is None ==> s.saved_rows(now).len() == 0,
        s.enabled && s.backend is Some && s.write_error is Some
            ==> s.saved_rows(now) == seq![("last_switch_result"@, "failed: config generation error"@)],
        s.enabled && s.backend is Some && s.write_error is None && s.udp
            ==> s.saved_rows(now) == seq![("last_applied_backend"@, s.target@), ("last_switch_at"@, now),
            ("last_switch_result"@, "ok"@)],
        s.enabled && s.backend is Some && s.write_error is None && !s.udp && s.previous is None
            ==> s.saved_rows(now) == seq![("last_applied_backend"@, "none"@), ("last_switch_result"@,
            "failed: "@ + s.message())],
        s.enabled && s.backend is Some && s.write_error is None && !s.udp ==> (s.previous matches Some(p)
            ==> s.saved_rows(now) == seq![("backend"@, backend_name(p)), ("last_applied_backend"@, backend_name(p)),
            ("last_switch_at"@, now), ("last_switch_result"@, "rolled_back: "@ + s.message())]),
{
}

/// A switch begins with what was asked for: one that is switched off looks at the backends, one
/// to a known target writes its files, and any other is over.
pub proof fn switch_begins_as_asked(target: String, previous: Option<Backend>, enabled: bool, probe_enabled: bool,
    s: Switch)
    requires
        call_ensures(Switch::begin, (target, previous, enabled, probe_enabled), s),
    ensures
        s.target == target && s.previous == previous && s.enabled == enabled && s.probe_enabled == probe_enabled,
        !enabled ==> s.phase == Phase::CheckRdns,
        enabled && (target@ == "rdns"@ || target@ == "unbound"@) ==> s.phase == Phase::Write,
        enabled && target@ != "rdns"@ && target@ != "unbound"@ ==> s.phase == Phase::Done,
{
}

/// The report of a switch says what runs now, what ran before and how the probes went: those of
/// the target where it answers, and those of what was restored where it was rolled back.
pub proof fn report_tells_what_runs(s: Switch, now: &str, o: SwitchOutcome)
    requires
        call_ensures(Switch::finish, (&s, now), o),
    ensures
        o.report.enabled == s.enabled,
        o.report.backend@ == s.running(),
        o.report.message@ == s.message(),
        rows(o.saves@) == s.saved_rows(now@),
        s.previous is None ==> o.report.previous is None,
        s.previous matches Some(p) ==> o.report.previous is Some && o.report.previous->0@ == backend_name(p),
        s.verdict() == Verdict::Healthy ==> o.report.probe_udp && o.report.probe_tcp == s.tcp && !o.report.rolled_back
            && o.clears_pending,
        s.verdict() is RolledBack ==> o.report.probe_udp == s.restored_udp && o.report.probe_tcp == s.restored_tcp
            && o.report.rolled_back && o.clears_pending,
        s.verdict() is NotWritten || s.verdict() is Unknown ==> !o.report.probe_udp && !o.report.probe_tcp
            && !o.report.rolled_back && !o.clears_pending,
        s.verdict() is Disabled ==> !o.report.probe_udp && !o.report.probe_tcp && !o.report.rolled_back
            && o.clears_pending,
        s.verdict() is Stranded ==> !o.report.probe_udp && o.report.probe_tcp == s.tcp && !o.report.rolled_back
            && o.clears_pending,
{
}

/// The log of a backend is looked for in its own file, and in that of the system by its name.
pub proof fn logs_are_looked_for(backend: &str, r: LogSource)
    requires
        call_ensures(resolver_logs, (backend,), r),
    ensures
        backend@ == "rdns"@ ==> r.primary@ == "/var/log/rdns/rdns.log"@ && r.term@ == "rdns"@,
        backend@ != "rdns"@ ==> r.primary@ == "/var/log/unbound.log"@ && r.term@ == "unbound"@,
        r.fallback@ == "/var/log/messages"@,
        r.scan == 5000 && r.keep == 200,
{
}

/// An answer moves the switch on and is kept in its own place: what the start said, how the
/// target answered the probe, and how what was restored did. Nothing else changes.
pub proof fn answers_move_the_switch(e: SwitchEvent, t: String, code: Status, udp: bool, tcp: bool, d: ())
    ensures
        forall|l: &mut Switch| #[trigger] call_ensures(Switch::observe, (l, e), d)
            ==> final(l).phase == (*l).next_phase(e) && final(l).target == (*l).target
            && final(l).previous == (*l).previous && final(l).enabled == (*l).enabled
            && final(l).probe_enabled == (*l).probe_enabled && final(l).backend == (*l).backend,
        forall|l: &mut Switch| #[trigger] call_ensures(Switch::observe, (l, SwitchEvent::Probed { udp, tcp }), d)
            ==> ((*l).phase == Phase::Probe ==> final(l).udp == udp && final(l).tcp == tcp
            && final(l).restored_udp == (*l).restored_udp && final(l).restored_tcp == (*l).restored_tcp)
            && ((*l).phase == Phase::RestoreProbe ==> final(l).restored_udp == udp && final(l).restored_tcp == tcp
            && final(l).udp == (*l).udp && final(l).tcp == (*l).tcp),
        forall|l: &mut Switch| #[trigger] call_ensures(Switch::observe, (l, SwitchEvent::Started(t)), d)
            ==> ((*l).phase == Phase::Start ==> final(l).started == Some(StartResult::Up(t))
            && final(l).udp == !(*l).probe_enabled) && ((*l).phase == Phase::RestoreStart
            ==> final(l).started == (*l).started && final(l).udp == (*l).udp),
        forall|l: &mut Switch| #[trigger] call_ensures(Switch::observe, (l, SwitchEvent::StartFailed(t)), d)
            ==> ((*l).phase == Phase::Start ==> final(l).started == Some(StartResult::Failed(t)) && !final(l).udp),
        forall|l: &mut Switch| #[trigger] call_ensures(Switch::observe, (l, SwitchEvent::Written), d)
            ==> ((*l).phase == Phase::Write ==> final(l).written && final(l).write_error == (*l).write_error),
        forall|l: &mut Switch| #[trigger] call_ensures(Switch::observe, (l, SwitchEvent::WriteFailed(code)), d)
            ==> ((*l).phase == Phase::Write ==> final(l).write_error == Some(code)
            && final(l).written == (*l).written) && ((*l).phase == Phase::RestoreWrite
            ==> final(l).write_error == (*l).write_error),
{
}

/// Each backend has its own service and setting, and another name has none.
pub proof fn backends_have_their_services(b: &str, r: Option<(&'static str, &'static str)>)
    requires
        call_ensures(backend_service, (b,), r),
    ensures
        b@ == "rdns"@ ==> (r matches Some((service, key)) && service@ == "rdns"@ && key@ == "rdns_enable"@),
        b@ == "unbound"@ ==> (r matches Some((service, key)) && service@ == "local_unbound"@
            && key@ == "local_unbound_enable"@),
        b@ != "rdns"@ && b@ != "unbound"@ ==> r is None,
{
    backend_names_read_back(Backend::Rdns);
    backend_names_read_back(Backend::Unbound);
}

} // verus!
