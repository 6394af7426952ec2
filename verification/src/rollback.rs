//! The rollback executor.
//!
//! Reverts a profile to its previous generation and re-runs the previous
//! generation's activation hook. The sequence is linear and non-retrying:
//! every step must succeed before the next one is issued, and the first
//! failure aborts the whole run with a stage-tagged error. The executor
//! never tries to roll back its own rollback.
//!
//! The machine here only decides; the caller performs each requested
//! command and feeds the outcome back in as an event.

use vstd::prelude::*;
use vstd::utf8::decode_utf8;
use vstd::utf8::valid_utf8;

use crate::command::CmdOutcome;
use crate::command::cmd_ok;
use crate::command::cmd_succeeded;
use crate::generations::bytes_to_string;
use crate::generations::last_generation_id;
use crate::generations::spec_last_generation_id;

verus! {

/// Why a rollback run failed, tagged with the stage that produced it.
#[derive(Clone, Copy, Debug, PartialEq, Eq)]
pub enum DeactivateError {
    /// The rollback command could not be spawned.
    Rollback,
    /// The rollback command exited with the given bad status.
    RollbackExit(Option<i32>),
    /// The command listing generations could not be spawned.
    ListGen,
    /// The command listing generations exited with the given bad status.
    ListGenExit(Option<i32>),
    /// The generation listing was not valid UTF-8.
    DecodeListGenUtf8,
    /// The generation listing held no generation entry.
    NoGenerations,
    /// The command deleting the last generation could not be spawned.
    DeleteGen,
    /// The command deleting the last generation exited with the given bad
    /// status.
    DeleteGenExit(Option<i32>),
    /// The restored generation's activation hook could not be spawned.
    Reactivate,
    /// The restored generation's activation hook exited with the given bad
    /// status.
    ReactivateExit(Option<i32>),
}

/// Stage of a rollback run. Every stage but `Done` has exactly one command
/// in flight.
#[derive(Clone, Copy, Debug, PartialEq, Eq)]
pub enum RollbackState {
    /// The profile rollback command is in flight.
    RollingBack,
    /// The generation listing command is in flight.
    ListingGenerations,
    /// The command deleting the rolled-back generation is in flight.
    DeletingGeneration,
    /// The restored generation's activation hook is in flight.
    Reactivating,
    /// The run is over, with its result.
    Done(Result<(), DeactivateError>),
}

/// Outcome of the command the current stage was waiting for.
pub enum RollbackEvent {
    RollbackCmdDone(CmdOutcome),
    /// Outcome of the listing command, with the bytes it wrote to its
    /// standard output.
    ListGenerationsDone(CmdOutcome, Vec<u8>),
    DeleteGenerationDone(CmdOutcome),
    ReactivateDone(CmdOutcome),
}

/// The next command the caller must run, or `Stop` when the run is over.
pub enum RollbackAction {
    /// Roll the profile back to its previous generation.
    RunRollbackCmd,
    /// List the profile's generations, capturing standard output.
    RunListGenerations,
    /// Delete the generation with the given identifier.
    RunDeleteGeneration(String),
    /// Run the activation hook of the restored generation.
    RunReactivate,
    Stop,
}

/// Which event each stage is waiting for.
pub open spec fn rollback_expects(state: RollbackState, event: RollbackEvent) -> bool {
    match (state, event) {
        (RollbackState::RollingBack, RollbackEvent::RollbackCmdDone(_)) => true,
        (RollbackState::ListingGenerations, RollbackEvent::ListGenerationsDone(..)) => true,
        (RollbackState::DeletingGeneration, RollbackEvent::DeleteGenerationDone(_)) => true,
        (RollbackState::Reactivating, RollbackEvent::ReactivateDone(_)) => true,
        _ => false,
    }
}

/// The command outcome an event reports.
pub open spec fn event_outcome(event: RollbackEvent) -> CmdOutcome {
    match event {
        RollbackEvent::RollbackCmdDone(o) => o,
        RollbackEvent::ListGenerationsDone(o, _) => o,
        RollbackEvent::DeleteGenerationDone(o) => o,
        RollbackEvent::ReactivateDone(o) => o,
    }
}

/// The transition relation of the executor, as a function on stages. A
/// failing command ends the run with that stage's error; a successful one
/// moves to the next stage in the fixed order. The listing stage also
/// decodes its output and extracts the generation identifier, failing when
/// the output is not UTF-8 or holds no entry.
pub open spec fn rollback_next(state: RollbackState, event: RollbackEvent) -> RollbackState {
    match (state, event) {
        (RollbackState::RollingBack, RollbackEvent::RollbackCmdDone(o)) => match o {
            CmdOutcome::SpawnFailed => RollbackState::Done(Err(DeactivateError::Rollback)),
            CmdOutcome::Exited(c) => if c == Some(0i32) {
                RollbackState::ListingGenerations
            } else {
                RollbackState::Done(Err(DeactivateError::RollbackExit(c)))
            },
        },
        (RollbackState::ListingGenerations, RollbackEvent::ListGenerationsDone(o, out)) => match o {
            CmdOutcome::SpawnFailed => RollbackState::Done(Err(DeactivateError::ListGen)),
            CmdOutcome::Exited(c) => if c != Some(0i32) {
                RollbackState::Done(Err(DeactivateError::ListGenExit(c)))
            } else if !valid_utf8(out@) {
                RollbackState::Done(Err(DeactivateError::DecodeListGenUtf8))
            } else if spec_last_generation_id(decode_utf8(out@)) is None {
                RollbackState::Done(Err(DeactivateError::NoGenerations))
            } else {
                RollbackState::DeletingGeneration
            },
        },
        (RollbackState::DeletingGeneration, RollbackEvent::DeleteGenerationDone(o)) => match o {
            CmdOutcome::SpawnFailed => RollbackState::Done(Err(DeactivateError::DeleteGen)),
            CmdOutcome::Exited(c) => if c == Some(0i32) {
                RollbackState::Reactivating
            } else {
                RollbackState::Done(Err(DeactivateError::DeleteGenExit(c)))
            },
        },
        (RollbackState::Reactivating, RollbackEvent::ReactivateDone(o)) => match o {
            CmdOutcome::SpawnFailed => RollbackState::Done(Err(DeactivateError::Reactivate)),
            CmdOutcome::Exited(c) => if c == Some(0i32) {
                RollbackState::Done(Ok(()))
            } else {
                RollbackState::Done(Err(DeactivateError::ReactivateExit(c)))
            },
        },
        _ => state,
    }
}

/// Starts a rollback run: the first step is the profile rollback command.
pub fn rollback_init() -> (r: (RollbackState, RollbackAction))
    ensures
        r.0 == RollbackState::RollingBack,
        r.1 is RunRollbackCmd,
{
    (RollbackState::RollingBack, RollbackAction::RunRollbackCmd)
}

/// Advances the executor by one observed command outcome, returning the new
/// stage and the next command to run.
pub fn rollback_step(state: RollbackState, event: RollbackEvent) -> (r: (
    RollbackState,
    RollbackAction,
))
    requires
        rollback_expects(state, event),
    ensures
        r.0 == rollback_next(state, event),
        r.0 is ListingGenerations ==> r.1 is RunListGenerations,
        r.0 is DeletingGeneration ==> (r.1 matches RollbackAction::RunDeleteGeneration(id)
            && Some(id@) == spec_last_generation_id(
            decode_utf8(event->ListGenerationsDone_1@),
        )),
        r.0 is Reactivating ==> r.1 is RunReactivate,
        r.0 is Done ==> r.1 is Stop,
{
    match (state, event) {
        (RollbackState::RollingBack, RollbackEvent::RollbackCmdDone(o)) => {
            if cmd_succeeded(&o) {
                (RollbackState::ListingGenerations, RollbackAction::RunListGenerations)
            } else {
                let e = match o {
                    CmdOutcome::SpawnFailed => DeactivateError::Rollback,
                    CmdOutcome::Exited(c) => DeactivateError::RollbackExit(c),
                };
                (RollbackState::Done(Err(e)), RollbackAction::Stop)
            }
        },
        (RollbackState::ListingGenerations, RollbackEvent::ListGenerationsDone(o, out)) => {
            if cmd_succeeded(&o) {
                match bytes_to_string(out) {
                    None => (
                        RollbackState::Done(Err(DeactivateError::DecodeListGenUtf8)),
                        RollbackAction::Stop,
                    ),
                    Some(text) => match last_generation_id(text.as_str()) {
                        None => (
                            RollbackState::Done(Err(DeactivateError::NoGenerations)),
                            RollbackAction::Stop,
                        ),
                        Some(id) => (
                            RollbackState::DeletingGeneration,
                            RollbackAction::RunDeleteGeneration(id),
                        ),
                    },
                }
            } else {
                let e = match o {
                    CmdOutcome::SpawnFailed => DeactivateError::ListGen,
                    CmdOutcome::Exited(c) => DeactivateError::ListGenExit(c),
                };
                (RollbackState::Done(Err(e)), RollbackAction::Stop)
            }
        },
        (RollbackState::DeletingGeneration, RollbackEvent::DeleteGenerationDone(o)) => {
            if cmd_succeeded(&o) {
                (RollbackState::Reactivating, RollbackAction::RunReactivate)
            } else {
                let e = match o {
                    CmdOutcome::SpawnFailed => DeactivateError::DeleteGen,
                    CmdOutcome::Exited(c) => DeactivateError::DeleteGenExit(c),
                };
                (RollbackState::Done(Err(e)), RollbackAction::Stop)
            }
        },
        (RollbackState::Reactivating, RollbackEvent::ReactivateDone(o)) => {
            if cmd_succeeded(&o) {
                (RollbackState::Done(Ok(())), RollbackAction::Stop)
            } else {
                let e = match o {
                    CmdOutcome::SpawnFailed => DeactivateError::Reactivate,
                    CmdOutcome::Exited(c) => DeactivateError::ReactivateExit(c),
                };
                (RollbackState::Done(Err(e)), RollbackAction::Stop)
            }
        },
        (s, _) => (s, RollbackAction::Stop),
    }
}

/// The executor aborts at the first failing step: a failing command ends
/// the run at once with an error, and the finished run accepts no further
/// event, so no later step is ever attempted.
pub proof fn lemma_rollback_aborts_on_failure(state: RollbackState, event: RollbackEvent)
    requires
        rollback_expects(state, event),
        !cmd_ok(event_outcome(event)),
    ensures
        rollback_next(state, event) is Done,
        rollback_next(state, event)->Done_0 is Err,
        forall|e: RollbackEvent| !rollback_expects(rollback_next(state, event), e),
{
}

/// When every command succeeds and the listing yields a generation
/// identifier, the run passes through all its stages in their fixed order
/// — rollback, list generations, delete generation, re-activate — and ends
/// reporting success.
pub proof fn lemma_rollback_full_sequence(out: Vec<u8>)
    requires
        valid_utf8(out@),
        spec_last_generation_id(decode_utf8(out@)) is Some,
    ensures
        ({
            let good = CmdOutcome::Exited(Some(0i32));
            let s1 = rollback_next(
                RollbackState::RollingBack,
                RollbackEvent::RollbackCmdDone(good),
            );
            let s2 = rollback_next(s1, RollbackEvent::ListGenerationsDone(good, out));
            let s3 = rollback_next(s2, RollbackEvent::DeleteGenerationDone(good));
            let s4 = rollback_next(s3, RollbackEvent::ReactivateDone(good));
            &&& s1 == RollbackState::ListingGenerations
            &&& s2 == RollbackState::DeletingGeneration
            &&& s3 == RollbackState::Reactivating
            &&& s4 == RollbackState::Done(Ok::<(), DeactivateError>(()))
        }),
{
}

} // verus!
