//! The decisions of the command-wrapping mode.
//!
//! In that mode the status is first set to pending (best effort), a
//! shell command is spawned, and its result decides both the final
//! status reported to the provider and the exit code of the host
//! process. Spawning and waiting happen outside the library; what the
//! wait came to is handed in as a `WaitOutcome`, and everything the
//! mode decides from it is fixed here.

use vstd::prelude::*;

use crate::status::Status;

verus! {

/// What waiting on the wrapped command came to: a normal exit with a
/// code, an end without a code (killed by a signal), or no wait at
/// all.
#[derive(Clone, Copy, Debug, PartialEq, Eq, Structural)]
pub enum WaitOutcome {
    Exited(i32),
    NoExitCode,
    WaitFailed,
}

/// The lifecycle of one wrapped run. `Succeeded`, `Failed` and
/// `Erred` are terminal.
#[derive(Clone, Copy, Debug, PartialEq, Eq, Structural)]
pub enum RunPhase {
    Created,
    Pending,
    Running,
    Succeeded,
    Failed,
    Erred,
}

/// The events that move a wrapped run along: the pending status
/// update was attempted (its own failure is only logged), the command
/// was spawned, the wait ended.
#[derive(Clone, Copy, Debug, PartialEq, Eq, Structural)]
pub enum RunEvent {
    PendingSet,
    Spawned,
    Finished(WaitOutcome),
}

/// The final status the mode reports: success exactly on exit code 0,
/// failure on any other exit (a signal included), error when the
/// command could not be waited on at all.
pub open spec fn spec_final_status(w: WaitOutcome) -> Status {
    match w {
        WaitOutcome::Exited(code) => if code == 0 {
            Status::Success
        } else {
            Status::Failure
        },
        WaitOutcome::NoExitCode => Status::Failure,
        WaitOutcome::WaitFailed => Status::Error,
    }
}

/// The exit code of the host process: the wrapped command's own code,
/// or 1 when none could be obtained.
pub open spec fn spec_exit_code(w: WaitOutcome) -> i32 {
    match w {
        WaitOutcome::Exited(code) => code,
        WaitOutcome::NoExitCode => 1,
        WaitOutcome::WaitFailed => 1,
    }
}

/// Whether a phase is terminal.
pub open spec fn spec_is_terminal(p: RunPhase) -> bool {
    p == RunPhase::Succeeded || p == RunPhase::Failed || p == RunPhase::Erred
}

/// The one step relation of a wrapped run: Created moves to Pending
/// once the pending update was attempted, Pending to Running on
/// spawn, and Running to the terminal phase that matches the final
/// status. An event out of turn leaves the phase unchanged.
pub open spec fn spec_advance(p: RunPhase, e: RunEvent) -> RunPhase {
    match (p, e) {
        (RunPhase::Created, RunEvent::PendingSet) => RunPhase::Pending,
        (RunPhase::Pending, RunEvent::Spawned) => RunPhase::Running,
        (RunPhase::Running, RunEvent::Finished(w)) => match spec_final_status(w) {
            Status::Success => RunPhase::Succeeded,
            Status::Failure => RunPhase::Failed,
            _ => RunPhase::Erred,
        },
        _ => p,
    }
}

/// The final status for a wait outcome.
pub fn final_status(w: &WaitOutcome) -> (r: Status)
    ensures
        r == spec_final_status(*w),
{
    match w {
        WaitOutcome::Exited(code) => {
            if *code == 0 {
                Status::Success
            } else {
                Status::Failure
            }
        },
        WaitOutcome::NoExitCode => Status::Failure,
        WaitOutcome::WaitFailed => Status::Error,
    }
}

/// The exit code of the host process for a wait outcome.
pub fn exit_code(w: &WaitOutcome) -> (r: i32)
    ensures
        r == spec_exit_code(*w),
{
    match w {
        WaitOutcome::Exited(code) => *code,
        WaitOutcome::NoExitCode => 1,
        WaitOutcome::WaitFailed => 1,
    }
}

/// Whether a phase is terminal.
pub fn is_terminal(p: &RunPhase) -> (r: bool)
    ensures
        r == spec_is_terminal(*p),
{
    match p {
        RunPhase::Succeeded => true,
        RunPhase::Failed => true,
        RunPhase::Erred => true,
        _ => false,
    }
}

/// Moves a wrapped run one step along.
pub fn advance(p: &RunPhase, e: &RunEvent) -> (r: RunPhase)
    ensures
        r == spec_advance(*p, *e),
{
    match (p, e) {
        (RunPhase::Created, RunEvent::PendingSet) => RunPhase::Pending,
        (RunPhase::Pending, RunEvent::Spawned) => RunPhase::Running,
        (RunPhase::Running, RunEvent::Finished(w)) => {
            match final_status(w) {
                Status::Success => RunPhase::Succeeded,
                Status::Failure => RunPhase::Failed,
                _ => RunPhase::Erred,
            }
        },
        _ => *p,
    }
}

/// A wrapped command that exits with code `code` has the mode request
/// exactly "success" for code 0 and "failure" otherwise, never an
/// invalid wire value, and the host process exits with the command's
/// own code.
pub proof fn lemma_wrapped_command_outcome(code: i32)
    ensures
        spec_final_status(WaitOutcome::Exited(code)) == if code == 0 {
            Status::Success
        } else {
            Status::Failure
        },
        spec_exit_code(WaitOutcome::Exited(code)) == code,
        spec_final_status(WaitOutcome::Exited(code)).is_valid_wire(),
{
}

/// Whatever the wait came to, the status the mode reports is one of
/// the three valid terminal wire values, so it can always be sent;
/// and a run that finishes from `Running` always reaches a terminal
/// phase.
pub proof fn lemma_run_terminates(w: WaitOutcome)
    ensures
        spec_final_status(w).is_valid_wire(),
        spec_final_status(w) != Status::Pending,
        spec_is_terminal(spec_advance(RunPhase::Running, RunEvent::Finished(w))),
{
}

} // verus!
