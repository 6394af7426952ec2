//! The confirmation watcher.
//!
//! After a successful activation the agent creates a canary marker file and
//! waits, with a timeout, for an external party to delete it. Deletion is
//! the sole confirmation signal; a timeout, a silently closed event source
//! or a watch-layer error all count as missing confirmation.
//!
//! The filesystem watch delivers at most one message into a single-slot
//! channel; the machine here decides, the caller touches the filesystem.

use vstd::prelude::*;

verus! {

/// The message the watch callback forwarded on the channel.
#[derive(Clone, Copy, Debug, PartialEq, Eq)]
pub enum ChannelMsg {
    /// The awaited filesystem event was observed.
    EventSeen,
    /// The watch layer reported an error.
    WatchFailed,
}

/// What a bounded receive on the single-slot channel yielded.
#[derive(Clone, Copy, Debug, PartialEq, Eq)]
pub enum RecvOutcome {
    /// A message arrived before the timeout.
    Received(ChannelMsg),
    /// The channel closed without ever delivering a message.
    Closed,
    /// The timeout elapsed first.
    TimedOut,
}

/// Why the wait for an event failed.
#[derive(Clone, Copy, Debug, PartialEq, Eq)]
pub enum DangerZoneError {
    /// The timeout elapsed before anything was observed: the operator was
    /// too slow.
    TimesUp,
    /// The event source closed without delivering anything: the watch
    /// mechanism itself failed silently.
    NoConfirmation,
    /// The watch layer reported an error.
    Watch,
}

/// Why the confirmation window failed as a whole.
#[derive(Clone, Copy, Debug, PartialEq, Eq)]
pub enum ActivationConfirmationError {
    /// The directory for the canary file could not be created.
    CreateConfirmDir,
    /// The canary file itself could not be created.
    CreateConfirmFile,
    /// The filesystem watch could not be established.
    Watcher,
    /// The wait for the confirmation event failed.
    WaitingError(DangerZoneError),
}

/// The one outcome of a bounded wait on the event channel: exactly one of
/// success, watch error, closed source or timeout, first arrival winning.
pub open spec fn spec_danger_zone(o: RecvOutcome) -> Result<(), DangerZoneError> {
    match o {
        RecvOutcome::Received(ChannelMsg::EventSeen) => Ok(()),
        RecvOutcome::Received(ChannelMsg::WatchFailed) => Err(DangerZoneError::Watch),
        RecvOutcome::Closed => Err(DangerZoneError::NoConfirmation),
        RecvOutcome::TimedOut => Err(DangerZoneError::TimesUp),
    }
}

/// Maps what the bounded receive yielded to the wait's result.
pub fn danger_zone(o: RecvOutcome) -> (r: Result<(), DangerZoneError>)
    ensures
        r == spec_danger_zone(o),
{
    match o {
        RecvOutcome::Received(ChannelMsg::EventSeen) => Ok(()),
        RecvOutcome::Received(ChannelMsg::WatchFailed) => Err(DangerZoneError::Watch),
        RecvOutcome::Closed => Err(DangerZoneError::NoConfirmation),
        RecvOutcome::TimedOut => Err(DangerZoneError::TimesUp),
    }
}

/// Stage of one confirmation window.
#[derive(Clone, Copy, Debug, PartialEq, Eq)]
pub enum ConfirmState {
    /// Waiting for the canary's parent directory to be ensured.
    EnsuringDir,
    /// Waiting for the canary file to be created.
    CreatingFile,
    /// Waiting for the filesystem watch on the canary to be established.
    StartingWatch,
    /// Waiting for the single event-channel message or the timeout.
    Awaiting,
    /// The window is over, with its result.
    Done(Result<(), ActivationConfirmationError>),
}

/// Outcome of the step the current stage was waiting for. The `bool` of
/// the first three variants tells whether that step succeeded.
#[derive(Clone, Copy, Debug, PartialEq, Eq)]
pub enum ConfirmEvent {
    DirEnsured(bool),
    FileCreated(bool),
    WatchStarted(bool),
    Recv(RecvOutcome),
}

/// The next filesystem step the caller must perform.
#[derive(Clone, Copy, Debug, PartialEq, Eq)]
pub enum ConfirmAction {
    /// Create the canary's parent directory (and any missing ancestors).
    EnsureConfirmDir,
    /// Create the canary marker file.
    CreateConfirmFile,
    /// Watch the canary file for removal. The watch is established after
    /// the file exists; an external party confirming in the gap between
    /// the two goes unobserved and manifests as a timeout.
    StartWatch,
    /// Perform one bounded receive on the event channel.
    AwaitEvent,
    Stop,
}

/// Which event each stage is waiting for.
pub open spec fn confirm_expects(state: ConfirmState, event: ConfirmEvent) -> bool {
    match (state, event) {
        (ConfirmState::EnsuringDir, ConfirmEvent::DirEnsured(_)) => true,
        (ConfirmState::CreatingFile, ConfirmEvent::FileCreated(_)) => true,
        (ConfirmState::StartingWatch, ConfirmEvent::WatchStarted(_)) => true,
        (ConfirmState::Awaiting, ConfirmEvent::Recv(_)) => true,
        _ => false,
    }
}

/// The transition relation of the confirmation window: directory, file,
/// watch and wait in that order, each failure ending the window with its
/// own error, and the wait's outcome mapped by [`spec_danger_zone`].
pub open spec fn confirm_next(state: ConfirmState, event: ConfirmEvent) -> ConfirmState {
    match (state, event) {
        (ConfirmState::EnsuringDir, ConfirmEvent::DirEnsured(ok)) => if ok {
            ConfirmState::CreatingFile
        } else {
            ConfirmState::Done(Err(ActivationConfirmationError::CreateConfirmDir))
        },
        (ConfirmState::CreatingFile, ConfirmEvent::FileCreated(ok)) => if ok {
            ConfirmState::StartingWatch
        } else {
            ConfirmState::Done(Err(ActivationConfirmationError::CreateConfirmFile))
        },
        (ConfirmState::StartingWatch, ConfirmEvent::WatchStarted(ok)) => if ok {
            ConfirmState::Awaiting
        } else {
            ConfirmState::Done(Err(ActivationConfirmationError::Watcher))
        },
        (ConfirmState::Awaiting, ConfirmEvent::Recv(o)) => match spec_danger_zone(o) {
            Ok(_) => ConfirmState::Done(Ok(())),
            Err(e) => ConfirmState::Done(Err(ActivationConfirmationError::WaitingError(e))),
        },
        _ => state,
    }
}

/// The step the caller must perform in each stage.
pub open spec fn confirm_action_for(state: ConfirmState) -> ConfirmAction {
    match state {
        ConfirmState::EnsuringDir => ConfirmAction::EnsureConfirmDir,
        ConfirmState::CreatingFile => ConfirmAction::CreateConfirmFile,
        ConfirmState::StartingWatch => ConfirmAction::StartWatch,
        ConfirmState::Awaiting => ConfirmAction::AwaitEvent,
        ConfirmState::Done(_) => ConfirmAction::Stop,
    }
}

/// Opens a confirmation window: the first step ensures the canary's parent
/// directory exists.
pub fn confirm_init() -> (r: (ConfirmState, ConfirmAction))
    ensures
        r.0 == ConfirmState::EnsuringDir,
        r.1 == confirm_action_for(r.0),
{
    (ConfirmState::EnsuringDir, ConfirmAction::EnsureConfirmDir)
}

/// Advances the confirmation window by one observed step outcome.
pub fn confirm_step(state: ConfirmState, event: ConfirmEvent) -> (r: (
    ConfirmState,
    ConfirmAction,
))
    requires
        confirm_expects(state, event),
    ensures
        r.0 == confirm_next(state, event),
        r.1 == confirm_action_for(r.0),
{
    let next = match (state, event) {
        (ConfirmState::EnsuringDir, ConfirmEvent::DirEnsured(ok)) => {
            if ok {
                ConfirmState::CreatingFile
            } else {
                ConfirmState::Done(Err(ActivationConfirmationError::CreateConfirmDir))
            }
        },
        (ConfirmState::CreatingFile, ConfirmEvent::FileCreated(ok)) => {
            if ok {
                ConfirmState::StartingWatch
            } else {
                ConfirmState::Done(Err(ActivationConfirmationError::CreateConfirmFile))
            }
        },
        (ConfirmState::StartingWatch, ConfirmEvent::WatchStarted(ok)) => {
            if ok {
                ConfirmState::Awaiting
            } else {
                ConfirmState::Done(Err(ActivationConfirmationError::Watcher))
            }
        },
        (ConfirmState::Awaiting, ConfirmEvent::Recv(o)) => match danger_zone(o) {
            Ok(_) => ConfirmState::Done(Ok(())),
            Err(e) => ConfirmState::Done(Err(ActivationConfirmationError::WaitingError(e))),
        },
        (s, _) => s,
    };
    let action = match next {
        ConfirmState::EnsuringDir => ConfirmAction::EnsureConfirmDir,
        ConfirmState::CreatingFile => ConfirmAction::CreateConfirmFile,
        ConfirmState::StartingWatch => ConfirmAction::StartWatch,
        ConfirmState::Awaiting => ConfirmAction::AwaitEvent,
        ConfirmState::Done(_) => ConfirmAction::Stop,
    };
    (next, action)
}

/// The window produces exactly one of its four outcomes: confirmation,
/// watch error, closed source, or timeout; each maps to its own result.
pub proof fn lemma_confirm_outcomes(o: RecvOutcome)
    ensures
        confirm_next(ConfirmState::Awaiting, ConfirmEvent::Recv(o)) == ConfirmState::Done(
            match o {
                RecvOutcome::Received(ChannelMsg::EventSeen) => Ok(()),
                RecvOutcome::Received(ChannelMsg::WatchFailed) => Err(
                    ActivationConfirmationError::WaitingError(DangerZoneError::Watch),
                ),
                RecvOutcome::Closed => Err(
                    ActivationConfirmationError::WaitingError(DangerZoneError::NoConfirmation),
                ),
                RecvOutcome::TimedOut => Err(
                    ActivationConfirmationError::WaitingError(DangerZoneError::TimesUp),
                ),
            },
        ),
{
}

} // verus!
