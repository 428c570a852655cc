//! The `rollback` action as a state machine: stop the sandbox of a saved run,
//! remove it, and mark the run as rolled back. Failures of `openshell` only
//! warn; a run without saved state cannot be rolled back.
use vstd::prelude::*;
use crate::error::EngineError;
use crate::shell::ShellOutput;
use crate::state::RunState;
use crate::text::{str_to_string, trim, trimmed};

verus! {

/// Where a rollback stands.
#[derive(Debug, Clone, Copy, PartialEq, Eq, Structural)]
pub enum RollbackPhase {
    Start,
    Stopping,
    Removing,
    MarkingRolledBack,
    Finished,
    Failed,
}

/// What the caller does next.
pub enum RollbackAction {
    /// Print `notice` to standard error if there is one, report progress, then
    /// run `openshell` with `args` and hand back its output.
    Run { notice: Option<String>, percent: u8, label: String, args: Vec<String> },
    /// Print `notice` if there is one, report progress, then mark the run as
    /// rolled back.
    MarkRolledBack { notice: Option<String>, percent: u8, label: String },
    /// Report progress; the rollback is done.
    Finish { percent: u8, label: String },
    /// The rollback stops with this error.
    Fail(EngineError),
}

/// A rollback in progress.
pub struct RollbackRun {
    pub run_id: String,
    /// The sandbox of the run, when its state was found.
    pub sandbox_name: Option<String>,
    pub phase: RollbackPhase,
}

/// The phase after a step.
pub open spec fn rollback_next(run: RollbackRun) -> RollbackPhase {
    match run.phase {
        RollbackPhase::Start => if run.sandbox_name is Some {
            RollbackPhase::Stopping
        } else {
            RollbackPhase::Failed
        },
        RollbackPhase::Stopping => RollbackPhase::Removing,
        RollbackPhase::Removing => RollbackPhase::MarkingRolledBack,
        RollbackPhase::MarkingRolledBack => RollbackPhase::Finished,
        RollbackPhase::Finished => RollbackPhase::Finished,
        RollbackPhase::Failed => RollbackPhase::Failed,
    }
}

/// The phases that wait for the output of a command.
pub open spec fn rollback_awaits_output(phase: RollbackPhase) -> bool {
    phase == RollbackPhase::Stopping || phase == RollbackPhase::Removing
}

/// The phases after which nothing happens.
pub open spec fn rollback_over(phase: RollbackPhase) -> bool {
    phase == RollbackPhase::Finished || phase == RollbackPhase::Failed
}

/// `openshell sandbox <verb> <name>`.
pub open spec fn sandbox_command(verb: Seq<char>, name: Seq<char>) -> Seq<Seq<char>> {
    seq!["sandbox"@, verb, name]
}

/// The warning for a failed command, or none when it exited with 0.
pub open spec fn warning_of(o: ShellOutput, prefix: Seq<char>, notice: Option<String>) -> bool {
    if o.exit_code == 0 {
        notice is None
    } else {
        notice is Some && notice->0@ == prefix + trimmed(o.stderr@)
    }
}

/// The action of a step of `run`.
pub open spec fn rollback_action(
    run: RollbackRun,
    output: Option<ShellOutput>,
    action: RollbackAction,
) -> bool {
    let name = run.sandbox_name->0@;
    match run.phase {
        RollbackPhase::Start => if run.sandbox_name is Some {
            action matches RollbackAction::Run { notice, percent, label, args } && notice is None
                && percent == 30 && label@ == "Stopping sandbox "@ + name && args.deep_view()
                == sandbox_command("stop"@, name)
        } else {
            action matches RollbackAction::Fail(EngineError::RunNotFound { run_id }) && run_id
                == run.run_id
        },
        RollbackPhase::Stopping => action matches RollbackAction::Run {
            notice,
            percent,
            label,
            args,
        } && warning_of(output->0, "Warning: stop failed (may already be stopped): "@, notice)
            && percent == 60 && label@ == "Removing sandbox "@ + name && args.deep_view()
            == sandbox_command("remove"@, name),
        RollbackPhase::Removing => action matches RollbackAction::MarkRolledBack {
            notice,
            percent,
            label,
        } && warning_of(output->0, "Warning: remove failed: "@, notice) && percent == 90 && label@
            == "Cleaning up run state"@,
        RollbackPhase::MarkingRolledBack => action matches RollbackAction::Finish { percent, label }
            && percent == 100 && label@ == "Rollback complete"@,
        _ => false,
    }
}

/// The warning for a failed command, or none.
fn warning(o: &ShellOutput, prefix: &str) -> (notice: Option<String>)
    ensures
        warning_of(*o, prefix@, notice),
{
    if o.exit_code != 0 {
        let mut n = str_to_string(prefix);
        let detail = trim(o.stderr.as_str());
        n.append(detail.as_str());
        Some(n)
    } else {
        None
    }
}

/// The arguments of `openshell sandbox <verb> <name>`.
fn sandbox_args(verb: &str, name: &String) -> (args: Vec<String>)
    ensures
        args.deep_view() == sandbox_command(verb@, name@),
{
    let mut args: Vec<String> = Vec::new();
    args.push(str_to_string("sandbox"));
    args.push(str_to_string(verb));
    args.push(name.clone());
    assert(args.deep_view() =~= sandbox_command(verb@, name@));
    args
}

impl RollbackRun {
    /// A rollback past its start knows the sandbox of its run.
    pub open spec fn well_formed(&self) -> bool {
        self.phase != RollbackPhase::Start && self.phase != RollbackPhase::Failed
            ==> self.sandbox_name is Some
    }

    /// A rollback of `run_id`, whose saved state is `state` (none when no state
    /// was found).
    pub fn new(run_id: &str, state: Option<RunState>) -> (r: RollbackRun)
        ensures
            r.run_id@ == run_id@,
            r.sandbox_name == match state {
                Some(s) => Some(s.sandbox_name),
                None => None,
            },
            r.phase == RollbackPhase::Start,
            r.well_formed(),
    {
        let sandbox_name = match state {
            Some(s) => Some(s.sandbox_name),
            None => None,
        };
        RollbackRun { run_id: str_to_string(run_id), sandbox_name, phase: RollbackPhase::Start }
    }

    /// One step: what to do next, given the output of the command that the
    /// previous step asked for.
    pub fn step(&mut self, output: Option<ShellOutput>) -> (action: RollbackAction)
        requires
            old(self).well_formed(),
            !rollback_over(old(self).phase),
            rollback_awaits_output(old(self).phase) ==> output is Some,
        ensures
            final(self).run_id == old(self).run_id,
            final(self).sandbox_name == old(self).sandbox_name,
            final(self).phase == rollback_next(*old(self)),
            final(self).well_formed(),
            rollback_action(*old(self), output, action),
    {
        match self.phase {
            RollbackPhase::Start => {
                match &self.sandbox_name {
                    Some(name) => {
                        let mut label = str_to_string("Stopping sandbox ");
                        label.append(name.as_str());
                        let args = sandbox_args("stop", name);
                        self.phase = RollbackPhase::Stopping;
                        RollbackAction::Run { notice: None, percent: 30, label, args }
                    },
                    None => {
                        self.phase = RollbackPhase::Failed;
                        RollbackAction::Fail(EngineError::RunNotFound { run_id: self.run_id.clone() })
                    },
                }
            },
            RollbackPhase::Stopping => {
                let o = output.unwrap();
                let notice = warning(&o, "Warning: stop failed (may already be stopped): ");
                let (label, args) = match &self.sandbox_name {
                    Some(name) => {
                        let mut label = str_to_string("Removing sandbox ");
                        label.append(name.as_str());
                        (label, sandbox_args("remove", name))
                    },
                    None => (String::new(), Vec::new()),
                };
                self.phase = RollbackPhase::Removing;
                RollbackAction::Run { notice, percent: 60, label, args }
            },
            RollbackPhase::Removing => {
                let o = output.unwrap();
                let notice = warning(&o, "Warning: remove failed: ");
                self.phase = RollbackPhase::MarkingRolledBack;
                RollbackAction::MarkRolledBack {
                    notice,
                    percent: 90,
                    label: str_to_string("Cleaning up run state"),
                }
            },
            _ => {
                self.phase = RollbackPhase::Finished;
                RollbackAction::Finish { percent: 100, label: str_to_string("Rollback complete") }
            },
        }
    }
}

/// Law: a run with saved state is always marked as rolled back after its
/// sandbox was stopped and removed, whatever those commands answered; a run
/// without saved state fails at once.
pub proof fn lemma_rollback_always_marks(run_id: String, name: Option<String>)
    ensures
        ({
            let r0 = RollbackRun { run_id, sandbox_name: name, phase: RollbackPhase::Start };
            let r1 = RollbackRun { phase: rollback_next(r0), ..r0 };
            let r2 = RollbackRun { phase: rollback_next(r1), ..r1 };
            let r3 = RollbackRun { phase: rollback_next(r2), ..r2 };
            &&& name is Some ==> r1.phase == RollbackPhase::Stopping && r2.phase
                == RollbackPhase::Removing && r3.phase == RollbackPhase::MarkingRolledBack
            &&& name is None ==> r1.phase == RollbackPhase::Failed
        }),
{
}

} // verus!
