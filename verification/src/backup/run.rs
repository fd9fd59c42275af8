//! Carrying out a restore: the row changes in one transaction, then the
//! changes of the running system, and what happens when a step fails.

use vstd::prelude::*;

use crate::status::Status;

verus! {

/// How an attempt to apply a plan ended.
#[derive(Clone, Copy, Debug, PartialEq, Eq, Structural)]
pub enum RunEnd {
    /// Every row is committed and every required change was made.
    Applied,
    /// A row change failed; the transaction was not committed, so the rows are
    /// what they were.
    NotCommitted,
    /// The rows are committed, but a required change of the running system
    /// failed.
    LiveFailed,
}

/// Where an attempt stands.
#[derive(Clone, Copy, Debug, PartialEq, Eq, Structural)]
pub enum RunPhase {
    Begin,
    Row(usize),
    Commit,
    /// A row change failed; the transaction is to be rolled back.
    Abort,
    Live(usize),
    Done(RunEnd),
}

/// What an attempt asks for.
#[derive(Clone, Copy, Debug, PartialEq, Eq, Structural)]
pub enum RunAction {
    BeginTransaction,
    /// Make the row change at this place of the plan.
    ChangeRow(usize),
    CommitTransaction,
    RollBackTransaction,
    /// Make the change of the running system at this place of the plan.
    ChangeLive(usize),
    Finish(RunEnd),
}

/// An attempt to apply a plan.
#[derive(Clone, Debug)]
pub struct Run {
    pub rows: usize,
    /// For each change of the running system, whether it is required.
    pub required: Vec<bool>,
    pub phase: RunPhase,
    pub committed: bool,
    /// How many row changes were made.
    pub rows_done: usize,
}

impl Run {
    /// The states that an attempt can be in.
    pub open spec fn wf(&self) -> bool {
        match self.phase {
            RunPhase::Begin => !self.committed && self.rows_done == 0,
            RunPhase::Row(i) => !self.committed && i < self.rows && self.rows_done == i,
            RunPhase::Commit => !self.committed && self.rows_done == self.rows,
            RunPhase::Abort => !self.committed,
            RunPhase::Live(i) => self.committed && i < self.required@.len() && self.rows_done == self.rows,
            RunPhase::Done(RunEnd::Applied) => self.committed && self.rows_done == self.rows,
            RunPhase::Done(RunEnd::NotCommitted) => !self.committed,
            RunPhase::Done(RunEnd::LiveFailed) => self.committed && self.rows_done == self.rows,
        }
    }

    /// Where an attempt goes behind the live change before `i`.
    pub open spec fn live_from(&self, i: int) -> RunPhase {
        if i < self.required@.len() {
            RunPhase::Live(i as usize)
        } else {
            RunPhase::Done(RunEnd::Applied)
        }
    }

    /// Where an attempt goes from its phase when its step succeeds or fails.
    pub open spec fn next_phase(&self, ok: bool) -> RunPhase {
        match self.phase {
            RunPhase::Begin => if !ok {
                RunPhase::Done(RunEnd::NotCommitted)
            } else if self.rows > 0 {
                RunPhase::Row(0)
            } else {
                RunPhase::Commit
            },
            RunPhase::Row(i) => if !ok {
                RunPhase::Abort
            } else if i + 1 < self.rows {
                RunPhase::Row((i + 1) as usize)
            } else {
                RunPhase::Commit
            },
            RunPhase::Commit => if ok {
                self.live_from(0)
            } else {
                RunPhase::Done(RunEnd::NotCommitted)
            },
            RunPhase::Abort => RunPhase::Done(RunEnd::NotCommitted),
            RunPhase::Live(i) => if ok || !self.required@[i as int] {
                self.live_from(i + 1)
            } else {
                RunPhase::Done(RunEnd::LiveFailed)
            },
            RunPhase::Done(e) => RunPhase::Done(e),
        }
    }

    /// Starts to apply a plan of `rows` row changes and of live changes that
    /// are required or not.
    pub fn begin(rows: usize, required: Vec<bool>) -> (r: Run)
        ensures
            r.wf(),
            r.phase == RunPhase::Begin,
            r.rows == rows,
            r.required == required,
    {
        Run { rows, required, phase: RunPhase::Begin, committed: false, rows_done: 0 }
    }

    /// What to do next.
    pub fn action(&self) -> (a: RunAction)
        ensures
            a == match self.phase {
                RunPhase::Begin => RunAction::BeginTransaction,
                RunPhase::Row(i) => RunAction::ChangeRow(i),
                RunPhase::Commit => RunAction::CommitTransaction,
                RunPhase::Abort => RunAction::RollBackTransaction,
                RunPhase::Live(i) => RunAction::ChangeLive(i),
                RunPhase::Done(e) => RunAction::Finish(e),
            },
    {
        match self.phase {
            RunPhase::Begin => RunAction::BeginTransaction,
            RunPhase::Row(i) => RunAction::ChangeRow(i),
            RunPhase::Commit => RunAction::CommitTransaction,
            RunPhase::Abort => RunAction::RollBackTransaction,
            RunPhase::Live(i) => RunAction::ChangeLive(i),
            RunPhase::Done(e) => RunAction::Finish(e),
        }
    }

    /// Takes note of whether the step succeeded. A row change counts only once
    /// the transaction that holds it is committed.
    pub fn observe(&mut self, ok: bool)
        requires
            old(self).wf(),
        ensures
            final(self).wf(),
            final(self).phase == old(self).next_phase(ok),
            final(self).rows == old(self).rows,
            final(self).required == old(self).required,
            final(self).committed == (old(self).committed || (old(self).phase == RunPhase::Commit && ok)),
    {
        match self.phase {
            RunPhase::Begin => {
                self.phase = if !ok {
                    RunPhase::Done(RunEnd::NotCommitted)
                } else if self.rows > 0 {
                    RunPhase::Row(0)
                } else {
                    RunPhase::Commit
                };
            },
            RunPhase::Row(i) => {
                if !ok {
                    self.phase = RunPhase::Abort;
                } else {
                    self.rows_done = i + 1;
                    self.phase = if i + 1 < self.rows {
                        RunPhase::Row(i + 1)
                    } else {
                        RunPhase::Commit
                    };
                }
            },
            RunPhase::Commit => {
                if ok {
                    self.committed = true;
                    self.phase = if self.required.len() > 0 {
                        RunPhase::Live(0)
                    } else {
                        RunPhase::Done(RunEnd::Applied)
                    };
                } else {
                    self.phase = RunPhase::Done(RunEnd::NotCommitted);
                }
            },
            RunPhase::Abort => {
                self.phase = RunPhase::Done(RunEnd::NotCommitted);
            },
            RunPhase::Live(i) => {
                let n: usize = self.required.len();
                self.phase = if !ok && self.required[i] {
                    RunPhase::Done(RunEnd::LiveFailed)
                } else if n - i > 1 {
                    RunPhase::Live(i + 1)
                } else {
                    RunPhase::Done(RunEnd::Applied)
                };
            },
            RunPhase::Done(_) => {},
        }
    }
}

/// Success is never reported for a part: an attempt that ends as applied has
/// committed every row change, and one that fails before the commit has
/// changed no row.
pub proof fn no_partial_success(r: Run)
    requires
        r.wf(),
    ensures
        r.phase == RunPhase::Done(RunEnd::Applied) ==> r.committed && r.rows_done == r.rows,
        r.phase == RunPhase::Done(RunEnd::NotCommitted) ==> !r.committed,
{
}

/// A failed row change ends the attempt without a commit, whichever row it is.
pub proof fn failed_row_rolls_back(r: Run, i: usize)
    requires
        r.wf(),
        r.phase == RunPhase::Row(i),
    ensures
        r.next_phase(false) == RunPhase::Abort,
        !r.committed,
{
}

/// What the audit log says of a restore that failed.
#[derive(Clone, Copy, Debug, PartialEq, Eq, Structural)]
pub enum AuditNote {
    RolledBack,
    RollbackFailed,
}

/// The text of an audit note.
pub open spec fn note_text(n: AuditNote) -> Seq<char> {
    match n {
        AuditNote::RolledBack => "config restore failed; rolled back to pre-restore state"@,
        AuditNote::RollbackFailed => "config restore failed AND rollback failed — system may be partially configured"@,
    }
}

/// The text of an audit note.
pub fn audit_text(n: AuditNote) -> (r: &'static str)
    ensures
        r@ == note_text(n),
{
    match n {
        AuditNote::RolledBack => "config restore failed; rolled back to pre-restore state",
        AuditNote::RollbackFailed => "config restore failed AND rollback failed — system may be partially configured",
    }
}

/// Whether the state from before the restore is to be applied again.
pub fn needs_rollback(end: RunEnd) -> (r: bool)
    ensures
        r == (end != RunEnd::Applied),
{
    match end {
        RunEnd::Applied => false,
        _ => true,
    }
}

/// The answer to a restore, from how applying the target ended and, where that
/// failed, how applying the state from before ended. There are three outcomes:
/// the target is applied; it failed and the state from before is back, which
/// is noted; both failed, which is noted as such.
pub fn apply_firewall_config_or_rollback(target: RunEnd, rollback: RunEnd) -> (r: (Result<(), Status>, Option<AuditNote>))
    ensures
        r.0 is Ok <==> target == RunEnd::Applied,
        r.0 matches Err(e) ==> e == Status::Internal,
        r.1 == if target == RunEnd::Applied {
            None
        } else if rollback == RunEnd::Applied {
            Some(AuditNote::RolledBack)
        } else {
            Some(AuditNote::RollbackFailed)
        },
{
    match target {
        RunEnd::Applied => (Ok(()), None),
        _ => match rollback {
            RunEnd::Applied => (Err(Status::Internal), Some(AuditNote::RolledBack)),
            _ => (Err(Status::Internal), Some(AuditNote::RollbackFailed)),
        },
    }
}

/// A run goes from the first row to the last, commits, and then goes from the
/// first change of the running system to the last: no step is left out, and
/// nothing of the running system changes before the rows are committed.
pub proof fn run_goes_step_by_step(r: Run)
    requires
        r.wf(),
        r.rows < usize::MAX,
    ensures
        r.phase is Begin && r.rows > 0 ==> r.next_phase(true) == RunPhase::Row(0),
        r.phase is Begin && r.rows == 0 ==> r.next_phase(true) == RunPhase::Commit,
        r.phase is Begin ==> r.next_phase(false) == RunPhase::Done(RunEnd::NotCommitted),
        r.phase matches RunPhase::Row(i) ==> {
            &&& r.next_phase(false) == RunPhase::Abort
            &&& i + 1 < r.rows ==> r.next_phase(true) == RunPhase::Row((i + 1) as usize)
            &&& i + 1 == r.rows ==> r.next_phase(true) == RunPhase::Commit
        },
        r.phase is Commit ==> r.next_phase(false) == RunPhase::Done(RunEnd::NotCommitted),
        r.phase is Commit && r.required@.len() > 0 ==> r.next_phase(true) == RunPhase::Live(0),
        r.phase is Commit && r.required@.len() == 0 ==> r.next_phase(true) == RunPhase::Done(RunEnd::Applied),
        r.phase matches RunPhase::Live(i) ==> {
            &&& r.required@[i as int] ==> r.next_phase(false) == RunPhase::Done(RunEnd::LiveFailed)
            &&& !r.required@[i as int] ==> r.next_phase(false) == r.next_phase(true)
            &&& i + 1 < r.required@.len() ==> r.next_phase(true) == RunPhase::Live((i + 1) as usize)
            &&& i + 1 == r.required@.len() ==> r.next_phase(true) == RunPhase::Done(RunEnd::Applied)
        },
        r.phase is Abort ==> r.next_phase(true) == RunPhase::Done(RunEnd::NotCommitted)
            && r.next_phase(false) == RunPhase::Done(
            RunEnd::NotCommitted,
        ),
{
}

/// The audit log says whether what was there before could be put back.
pub proof fn notes_say_what_happened()
    ensures
        note_text(AuditNote::RolledBack) == "config restore failed; rolled back to pre-restore state"@,
        note_text(AuditNote::RollbackFailed)
            == "config restore failed AND rollback failed — system may be partially configured"@,
{
}

/// A restore that was applied needs nothing more and is noted by nothing; any other has failed,
/// and whether what was there before came back is noted.
pub proof fn failed_restores_are_rolled_back(target: RunEnd, rollback: RunEnd, r: (Result<(), Status>,
    Option<AuditNote>), b: bool)
    ensures
        call_ensures(apply_firewall_config_or_rollback, (target, rollback), r) && target == RunEnd::Applied
            ==> r.0 is Ok && r.1 is None,
        call_ensures(apply_firewall_config_or_rollback, (target, rollback), r) && target != RunEnd::Applied
            ==> r.0 == Err::<(), Status>(Status::Internal)
            && r.1 == Some(if rollback == RunEnd::Applied { AuditNote::RolledBack } else { AuditNote::RollbackFailed }),
        call_ensures(needs_rollback, (target,), b) ==> (b <==> target != RunEnd::Applied),
{
}

} // verus!
