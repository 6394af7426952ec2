//! The activation controller.
//!
//! The top-level state machine of an `activate` invocation: it sets the
//! profile, runs the new configuration's activation hook, decides whether
//! to open a confirmation window, and triggers the rollback executor on
//! failure when permitted. A dry-run preview runs the hook against the
//! closure path instead and never mutates the live profile; a boot-only
//! update writes a bootloader entry and must not block on confirmation.
//!
//! The machine only decides; the caller spawns the commands, drives the
//! confirmation window and the rollback executor, and feeds each outcome
//! back in as an event.

use vstd::prelude::*;

use crate::command::CmdOutcome;
use crate::command::cmd_succeeded;
use crate::confirm::ActivationConfirmationError;
use crate::rollback::DeactivateError;

verus! {

/// The parameters of one `activate` invocation, resolved by the caller.
pub struct ActivateSettings {
    /// The resolved profile path to install into.
    pub profile_path: String,
    /// The closure to activate.
    pub closure: String,
    /// Directory for the canary marker file.
    pub temp_path: String,
    /// Seconds to wait for confirmation after activation.
    pub confirm_timeout: u16,
    /// Wait for confirmation after activation and roll back when it does
    /// not arrive.
    pub magic_rollback: bool,
    /// Roll back automatically when a step of the activation fails.
    pub auto_rollback: bool,
    /// Only preview: run the hook against the closure, mutate nothing.
    pub dry_activate: bool,
    /// Only update the bootloader for the next boot; do not block on live
    /// confirmation.
    pub boot: bool,
}

/// Why an activation failed.
#[derive(Clone, Copy, Debug, PartialEq, Eq)]
pub enum ActivateError {
    /// The command setting the profile could not be spawned.
    SetProfile,
    /// The command setting the profile exited with the given bad status.
    SetProfileExit(Option<i32>),
    /// The activation hook could not be spawned.
    RunActivate,
    /// The activation hook exited with the given bad status.
    RunActivateExit(Option<i32>),
    /// The corrective rollback itself failed while handling an earlier
    /// error; the rollback's error replaces the original one.
    Deactivate(DeactivateError),
    /// No confirmation was obtained within the window.
    ActivationConfirmation(ActivationConfirmationError),
}

/// Which root the activation hook runs against: the closure path for a
/// dry-run preview, the profile path otherwise.
#[derive(Clone, Copy, Debug, PartialEq, Eq)]
pub enum HookRoot {
    ClosurePath,
    ProfilePath,
}

/// Stage of one activation.
#[derive(Clone, Copy, Debug, PartialEq, Eq)]
pub enum ActivateState {
    /// The profile-set command is in flight.
    SettingProfile,
    /// The activation hook is in flight.
    RunningHook,
    /// The confirmation window is open.
    Confirming,
    /// The rollback executor is running; on its success the recorded
    /// original error is surfaced.
    RollingBack(ActivateError),
    /// The activation is over, with its result.
    Done(Result<(), ActivateError>),
}

/// Outcome of the step the current stage was waiting for.
#[derive(Clone, Copy, Debug, PartialEq, Eq)]
pub enum ActivateEvent {
    SetProfileDone(CmdOutcome),
    HookDone(CmdOutcome),
    ConfirmationDone(Result<(), ActivationConfirmationError>),
    RollbackDone(Result<(), DeactivateError>),
}

/// The next piece of work the caller must perform.
#[derive(Clone, Copy, Debug, PartialEq, Eq)]
pub enum ActivateAction {
    /// Point the profile at the closure.
    RunSetProfile,
    /// Run the activation hook at `<root>/deploy-rs-activate` with the
    /// root as working directory and profile environment.
    RunHook(HookRoot),
    /// Open the confirmation window (drive the confirmation watcher).
    OpenConfirmation,
    /// Run the rollback executor against the profile path.
    RunRollback,
    Stop,
}

/// Which event each stage is waiting for.
pub open spec fn activate_expects(state: ActivateState, event: ActivateEvent) -> bool {
    match (state, event) {
        (ActivateState::SettingProfile, ActivateEvent::SetProfileDone(_)) => true,
        (ActivateState::RunningHook, ActivateEvent::HookDone(_)) => true,
        (ActivateState::Confirming, ActivateEvent::ConfirmationDone(_)) => true,
        (ActivateState::RollingBack(_), ActivateEvent::RollbackDone(_)) => true,
        _ => false,
    }
}

/// The stage an activation starts in: a dry-run preview skips the
/// profile-set step entirely and goes straight to the hook.
pub open spec fn spec_activate_init(s: ActivateSettings) -> ActivateState {
    if s.dry_activate {
        ActivateState::RunningHook
    } else {
        ActivateState::SettingProfile
    }
}

/// The root the hook runs against under the given settings.
pub open spec fn spec_hook_root(s: ActivateSettings) -> HookRoot {
    if s.dry_activate {
        HookRoot::ClosurePath
    } else {
        HookRoot::ProfilePath
    }
}

/// The transition relation of the controller.
///
/// - A profile-set spawn failure is surfaced directly; a bad exit status
///   triggers the rollback executor first when auto-rollback is enabled.
/// - A hook spawn failure is surfaced, after rollback when auto-rollback
///   is enabled and this is no dry-run. A dry-run otherwise succeeds here
///   unconditionally, whatever the hook's exit status.
/// - A hook exit with a bad status triggers rollback when auto-rollback is
///   enabled, then surfaces the status.
/// - After a successful hook, the confirmation window opens only when
///   magic-rollback is enabled and this is not a boot-only update;
///   otherwise the activation succeeds at once.
/// - Any confirmation failure triggers the rollback executor
///   unconditionally: losing confirmation is itself the rollback trigger,
///   not gated by the auto-rollback flag.
/// - When the rollback executor succeeds, the recorded original error is
///   surfaced; when it fails, its own error is surfaced instead.
pub open spec fn activate_next(
    s: ActivateSettings,
    state: ActivateState,
    event: ActivateEvent,
) -> ActivateState {
    match (state, event) {
        (ActivateState::SettingProfile, ActivateEvent::SetProfileDone(o)) => match o {
            CmdOutcome::SpawnFailed => ActivateState::Done(Err(ActivateError::SetProfile)),
            CmdOutcome::Exited(c) => if c == Some(0i32) {
                ActivateState::RunningHook
            } else if s.auto_rollback {
                ActivateState::RollingBack(ActivateError::SetProfileExit(c))
            } else {
                ActivateState::Done(Err(ActivateError::SetProfileExit(c)))
            },
        },
        (ActivateState::RunningHook, ActivateEvent::HookDone(o)) => match o {
            CmdOutcome::SpawnFailed => if s.auto_rollback && !s.dry_activate {
                ActivateState::RollingBack(ActivateError::RunActivate)
            } else {
                ActivateState::Done(Err(ActivateError::RunActivate))
            },
            CmdOutcome::Exited(c) => if s.dry_activate {
                ActivateState::Done(Ok(()))
            } else if c == Some(0i32) {
                if s.magic_rollback && !s.boot {
                    ActivateState::Confirming
                } else {
                    ActivateState::Done(Ok(()))
                }
            } else if s.auto_rollback {
                ActivateState::RollingBack(ActivateError::RunActivateExit(c))
            } else {
                ActivateState::Done(Err(ActivateError::RunActivateExit(c)))
            },
        },
        (ActivateState::Confirming, ActivateEvent::ConfirmationDone(r)) => match r {
            Ok(_) => ActivateState::Done(Ok(())),
            Err(e) => ActivateState::RollingBack(ActivateError::ActivationConfirmation(e)),
        },
        (ActivateState::RollingBack(pending), ActivateEvent::RollbackDone(r)) => match r {
            Ok(_) => ActivateState::Done(Err(pending)),
            Err(d) => ActivateState::Done(Err(ActivateError::Deactivate(d))),
        },
        _ => state,
    }
}

/// The piece of work pending in each stage.
pub open spec fn activate_action_for(s: ActivateSettings, state: ActivateState) -> ActivateAction {
    match state {
        ActivateState::SettingProfile => ActivateAction::RunSetProfile,
        ActivateState::RunningHook => ActivateAction::RunHook(spec_hook_root(s)),
        ActivateState::Confirming => ActivateAction::OpenConfirmation,
        ActivateState::RollingBack(_) => ActivateAction::RunRollback,
        ActivateState::Done(_) => ActivateAction::Stop,
    }
}

/// Starts an activation under the given settings.
pub fn activate_init(s: &ActivateSettings) -> (r: (ActivateState, ActivateAction))
    ensures
        r.0 == spec_activate_init(*s),
        r.1 == activate_action_for(*s, r.0),
{
    if s.dry_activate {
        (ActivateState::RunningHook, ActivateAction::RunHook(HookRoot::ClosurePath))
    } else {
        (ActivateState::SettingProfile, ActivateAction::RunSetProfile)
    }
}

/// Advances the controller by one observed outcome, returning the new
/// stage and the work now pending.
pub fn activate_step(s: &ActivateSettings, state: ActivateState, event: ActivateEvent) -> (r: (
    ActivateState,
    ActivateAction,
))
    requires
        activate_expects(state, event),
    ensures
        r.0 == activate_next(*s, state, event),
        r.1 == activate_action_for(*s, r.0),
{
    let next = match (state, event) {
        (ActivateState::SettingProfile, ActivateEvent::SetProfileDone(o)) => {
            if cmd_succeeded(&o) {
                ActivateState::RunningHook
            } else {
                match o {
                    CmdOutcome::SpawnFailed => ActivateState::Done(
                        Err(ActivateError::SetProfile),
                    ),
                    CmdOutcome::Exited(c) => {
                        if s.auto_rollback {
                            ActivateState::RollingBack(ActivateError::SetProfileExit(c))
                        } else {
                            ActivateState::Done(Err(ActivateError::SetProfileExit(c)))
                        }
                    },
                }
            }
        },
        (ActivateState::RunningHook, ActivateEvent::HookDone(o)) => {
            match o {
                CmdOutcome::SpawnFailed => {
                    if s.auto_rollback && !s.dry_activate {
                        ActivateState::RollingBack(ActivateError::RunActivate)
                    } else {
                        ActivateState::Done(Err(ActivateError::RunActivate))
                    }
                },
                CmdOutcome::Exited(c) => {
                    if s.dry_activate {
                        ActivateState::Done(Ok(()))
                    } else if cmd_succeeded(&CmdOutcome::Exited(c)) {
                        if s.magic_rollback && !s.boot {
                            ActivateState::Confirming
                        } else {
                            ActivateState::Done(Ok(()))
                        }
                    } else if s.auto_rollback {
                        ActivateState::RollingBack(ActivateError::RunActivateExit(c))
                    } else {
                        ActivateState::Done(Err(ActivateError::RunActivateExit(c)))
                    }
                },
            }
        },
        (ActivateState::Confirming, ActivateEvent::ConfirmationDone(r)) => {
            match r {
                Ok(_) => ActivateState::Done(Ok(())),
                Err(e) => ActivateState::RollingBack(ActivateError::ActivationConfirmation(e)),
            }
        },
        (ActivateState::RollingBack(pending), ActivateEvent::RollbackDone(r)) => {
            match r {
                Ok(_) => ActivateState::Done(Err(pending)),
                Err(d) => ActivateState::Done(Err(ActivateError::Deactivate(d))),
            }
        },
        (st, _) => st,
    };
    let action = match next {
        ActivateState::SettingProfile => ActivateAction::RunSetProfile,
        ActivateState::RunningHook => {
            if s.dry_activate {
                ActivateAction::RunHook(HookRoot::ClosurePath)
            } else {
                ActivateAction::RunHook(HookRoot::ProfilePath)
            }
        },
        ActivateState::Confirming => ActivateAction::OpenConfirmation,
        ActivateState::RollingBack(_) => ActivateAction::RunRollback,
        ActivateState::Done(_) => ActivateAction::Stop,
    };
    (next, action)
}

/// The path a [`HookRoot`] stands for: the closure path for a dry-run
/// preview's hook, the resolved profile path otherwise.
pub fn hook_root_path<'a>(s: &'a ActivateSettings, root: HookRoot) -> (r: &'a String)
    ensures
        root is ClosurePath ==> r@ == s.closure@,
        root is ProfilePath ==> r@ == s.profile_path@,
{
    match root {
        HookRoot::ClosurePath => &s.closure,
        HookRoot::ProfilePath => &s.profile_path,
    }
}

/// The value of a hook environment flag: `"1"` for a set flag, `"0"` for
/// a cleared one.
pub fn hook_env_flag(b: bool) -> (r: &'static str)
    ensures
        b ==> r@ == "1"@,
        !b ==> r@ == "0"@,
{
    if b {
        "1"
    } else {
        "0"
    }
}

/// A dry-run preview never sets the profile — it starts at the hook, run
/// against the closure path, and no transition ever leads back to the
/// profile-set stage — and it never opens a confirmation window, whatever
/// the other flags say.
pub proof fn lemma_dry_activate_skips(s: ActivateSettings, state: ActivateState, event: ActivateEvent)
    requires
        s.dry_activate,
        activate_expects(state, event),
    ensures
        spec_activate_init(s) == ActivateState::RunningHook,
        activate_action_for(s, spec_activate_init(s)) == ActivateAction::RunHook(
            HookRoot::ClosurePath,
        ),
        activate_next(s, state, event) != ActivateState::SettingProfile,
        activate_action_for(s, activate_next(s, state, event)) != ActivateAction::RunSetProfile,
        activate_action_for(s, activate_next(s, state, event)) != ActivateAction::OpenConfirmation,
{
}

/// A boot-only update never opens a confirmation window, even with
/// magic-rollback set: it must not block on live confirmation.
pub proof fn lemma_boot_no_confirmation(s: ActivateSettings, state: ActivateState, event: ActivateEvent)
    requires
        s.boot,
        activate_expects(state, event),
    ensures
        activate_next(s, state, event) != ActivateState::Confirming,
        activate_action_for(s, activate_next(s, state, event)) != ActivateAction::OpenConfirmation,
{
}

/// A hook that exits with a bad status while auto-rollback is enabled (and
/// this is no dry-run) triggers the rollback executor, and once the
/// rollback has run to completion the hook's own error — not the
/// rollback's success — is what the activation surfaces.
pub proof fn lemma_hook_failure_rolls_back(s: ActivateSettings, c: Option<i32>)
    requires
        s.auto_rollback,
        !s.dry_activate,
        c != Some(0i32),
    ensures
        activate_next(s, ActivateState::RunningHook, ActivateEvent::HookDone(CmdOutcome::Exited(c)))
            == ActivateState::RollingBack(ActivateError::RunActivateExit(c)),
        activate_action_for(s, ActivateState::RollingBack(ActivateError::RunActivateExit(c)))
            == ActivateAction::RunRollback,
        activate_next(
            s,
            ActivateState::RollingBack(ActivateError::RunActivateExit(c)),
            ActivateEvent::RollbackDone(Ok(())),
        ) == ActivateState::Done(Err(ActivateError::RunActivateExit(c))),
{
}

/// Any failure of the confirmation window — the timeout included —
/// triggers the rollback executor even when auto-rollback is not set:
/// losing confirmation is itself the rollback trigger.
pub proof fn lemma_confirmation_failure_rolls_back(
    s: ActivateSettings,
    e: ActivationConfirmationError,
)
    ensures
        activate_next(s, ActivateState::Confirming, ActivateEvent::ConfirmationDone(Err(e)))
            == ActivateState::RollingBack(ActivateError::ActivationConfirmation(e)),
        activate_action_for(s, ActivateState::RollingBack(ActivateError::ActivationConfirmation(e)))
            == ActivateAction::RunRollback,
{
}

} // verus!
