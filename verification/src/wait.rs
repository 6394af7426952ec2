//! The wait client.
//!
//! The external counterpart of the confirmation watcher: it blocks until
//! the canary marker file is *created*, so a remote orchestrator can detect
//! that a target host has entered its confirmation window, and then delete
//! the marker to confirm. To close the create-before-watch race, the
//! client re-checks for the marker right after establishing the watch: a
//! marker already present means the window is already open and the client
//! succeeds without waiting.

use vstd::prelude::*;

use crate::confirm::DangerZoneError;
use crate::confirm::RecvOutcome;
use crate::confirm::danger_zone;
use crate::confirm::spec_danger_zone;

verus! {

/// Why a wait for the canary's creation failed.
#[derive(Clone, Copy, Debug, PartialEq, Eq)]
pub enum WaitError {
    /// The filesystem watch could not be established or torn down.
    Watcher,
    /// The wait for the creation event failed.
    Waiting(DangerZoneError),
}

/// Stage of one wait-client run.
#[derive(Clone, Copy, Debug, PartialEq, Eq)]
pub enum WaitState {
    /// Waiting for the watch on the temporary directory to be established.
    StartingWatch,
    /// Waiting for the direct existence re-check of the marker.
    CheckingMarker,
    /// The marker already exists; waiting for the watch to be cancelled.
    Unwatching,
    /// Waiting for the single event-channel message or the timeout.
    Awaiting,
    /// The run is over, with its result.
    Done(Result<(), WaitError>),
}

/// Outcome of the step the current stage was waiting for.
#[derive(Clone, Copy, Debug, PartialEq, Eq)]
pub enum WaitEvent {
    /// Whether the watch was established.
    WatchStarted(bool),
    /// Whether the marker file already exists.
    MarkerChecked(bool),
    /// Whether the watch was cancelled.
    UnwatchDone(bool),
    Recv(RecvOutcome),
}

/// The next step the caller must perform.
#[derive(Clone, Copy, Debug, PartialEq, Eq)]
pub enum WaitAction {
    /// Watch the temporary directory for file creation.
    StartWatch,
    /// Check directly whether the marker file exists.
    CheckMarker,
    /// Cancel the watch.
    Unwatch,
    /// Perform one bounded receive on the event channel.
    AwaitEvent,
    Stop,
}

/// Which event each stage is waiting for.
pub open spec fn wait_expects(state: WaitState, event: WaitEvent) -> bool {
    match (state, event) {
        (WaitState::StartingWatch, WaitEvent::WatchStarted(_)) => true,
        (WaitState::CheckingMarker, WaitEvent::MarkerChecked(_)) => true,
        (WaitState::Unwatching, WaitEvent::UnwatchDone(_)) => true,
        (WaitState::Awaiting, WaitEvent::Recv(_)) => true,
        _ => false,
    }
}

/// The transition relation of the wait client: establish the watch,
/// re-check for the marker, and either finish at once (marker present) or
/// block on the event channel.
pub open spec fn wait_next(state: WaitState, event: WaitEvent) -> WaitState {
    match (state, event) {
        (WaitState::StartingWatch, WaitEvent::WatchStarted(ok)) => if ok {
            WaitState::CheckingMarker
        } else {
            WaitState::Done(Err(WaitError::Watcher))
        },
        (WaitState::CheckingMarker, WaitEvent::MarkerChecked(exists)) => if exists {
            WaitState::Unwatching
        } else {
            WaitState::Awaiting
        },
        (WaitState::Unwatching, WaitEvent::UnwatchDone(ok)) => if ok {
            WaitState::Done(Ok(()))
        } else {
            WaitState::Done(Err(WaitError::Watcher))
        },
        (WaitState::Awaiting, WaitEvent::Recv(o)) => match spec_danger_zone(o) {
            Ok(_) => WaitState::Done(Ok(())),
            Err(e) => WaitState::Done(Err(WaitError::Waiting(e))),
        },
        _ => state,
    }
}

/// The step the caller must perform in each stage.
pub open spec fn wait_action_for(state: WaitState) -> WaitAction {
    match state {
        WaitState::StartingWatch => WaitAction::StartWatch,
        WaitState::CheckingMarker => WaitAction::CheckMarker,
        WaitState::Unwatching => WaitAction::Unwatch,
        WaitState::Awaiting => WaitAction::AwaitEvent,
        WaitState::Done(_) => WaitAction::Stop,
    }
}

/// Starts a wait-client run: the first step establishes the watch, before
/// any existence check, so no creation can slip between the two.
pub fn wait_init() -> (r: (WaitState, WaitAction))
    ensures
        r.0 == WaitState::StartingWatch,
        r.1 == wait_action_for(r.0),
{
    (WaitState::StartingWatch, WaitAction::StartWatch)
}

/// Advances the wait client by one observed step outcome.
pub fn wait_step(state: WaitState, event: WaitEvent) -> (r: (WaitState, WaitAction))
    requires
        wait_expects(state, event),
    ensures
        r.0 == wait_next(state, event),
        r.1 == wait_action_for(r.0),
{
    let next = match (state, event) {
        (WaitState::StartingWatch, WaitEvent::WatchStarted(ok)) => {
            if ok {
                WaitState::CheckingMarker
            } else {
                WaitState::Done(Err(WaitError::Watcher))
            }
        },
        (WaitState::CheckingMarker, WaitEvent::MarkerChecked(exists)) => {
            if exists {
                WaitState::Unwatching
            } else {
                WaitState::Awaiting
            }
        },
        (WaitState::Unwatching, WaitEvent::UnwatchDone(ok)) => {
            if ok {
                WaitState::Done(Ok(()))
            } else {
                WaitState::Done(Err(WaitError::Watcher))
            }
        },
        (WaitState::Awaiting, WaitEvent::Recv(o)) => match danger_zone(o) {
            Ok(_) => WaitState::Done(Ok(())),
            Err(e) => WaitState::Done(Err(WaitError::Waiting(e))),
        },
        (s, _) => s,
    };
    let action = match next {
        WaitState::StartingWatch => WaitAction::StartWatch,
        WaitState::CheckingMarker => WaitAction::CheckMarker,
        WaitState::Unwatching => WaitAction::Unwatch,
        WaitState::Awaiting => WaitAction::AwaitEvent,
        WaitState::Done(_) => WaitAction::Stop,
    };
    (next, action)
}

/// The timeout the client waits with: the caller-supplied number of
/// seconds, or 240 when none was given.
pub fn wait_timeout_secs(activation_timeout: Option<u16>) -> (r: u16)
    ensures
        r == match activation_timeout {
            Option::Some(t) => t,
            Option::None => 240u16,
        },
{
    match activation_timeout {
        Some(t) => t,
        None => 240,
    }
}

/// A creation event announces the marker exactly when the watched path
/// could be canonicalized and the event carries that one path alone.
pub open spec fn spec_creation_matches(paths: Seq<Seq<char>>, canonical: Option<
    Seq<char>,
>) -> bool {
    &&& canonical is Some
    &&& paths.len() == 1
    &&& paths[0] == canonical->0
}

/// Decides whether a file-creation event, carrying the canonical paths it
/// affected, is the creation of the awaited marker. `canonical` is the
/// canonicalized marker path, or `None` while the marker cannot be
/// canonicalized yet.
pub fn creation_event_matches(paths: &Vec<String>, canonical: &Option<String>) -> (r: bool)
    ensures
        r == spec_creation_matches(
            paths@.map_values(|p: String| p@),
            match *canonical {
                Option::Some(c) => Option::Some(c@),
                Option::None => Option::None,
            },
        ),
{
    match canonical {
        None => false,
        Some(c) => {
            if paths.len() == 1 {
                let ghost m = paths@.map_values(|p: String| p@);
                proof {
                    assert(m[0] == paths@[0]@);
                }
                paths[0].eq(c)
            } else {
                false
            }
        },
    }
}

/// A marker observed to exist right after the watch is established ends
/// the run successfully at once: the only path on which the client ever
/// blocks on the event channel is a negative existence re-check.
pub proof fn lemma_wait_marker_already_present()
    ensures
        wait_next(WaitState::CheckingMarker, WaitEvent::MarkerChecked(true)) == WaitState::Unwatching,
        wait_next(WaitState::Unwatching, WaitEvent::UnwatchDone(true)) == WaitState::Done(
            Ok::<(), WaitError>(()),
        ),
        forall|s: WaitState, e: WaitEvent|
            wait_expects(s, e) && wait_action_for(wait_next(s, e)) == WaitAction::AwaitEvent
                ==> s == WaitState::CheckingMarker && e == WaitEvent::MarkerChecked(false),
{
}

} // verus!
