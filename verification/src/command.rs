//! The observed outcome of one external command invocation.
//!
//! The agent never runs external processes itself; the surrounding program
//! spawns them, waits for them, and reports what happened as a value of
//! [`CmdOutcome`].

use vstd::prelude::*;

verus! {

/// What the caller observed of one external command.
#[derive(Clone, Copy, Debug, PartialEq, Eq)]
pub enum CmdOutcome {
    /// The process could not be spawned at all.
    SpawnFailed,
    /// The process ran; `Some(code)` is its exit code, and `None` means it
    /// was terminated by a signal and yielded no code.
    Exited(Option<i32>),
}

/// A command counts as successful exactly when it exited with code 0.
pub open spec fn cmd_ok(o: CmdOutcome) -> bool {
    match o {
        CmdOutcome::SpawnFailed => false,
        CmdOutcome::Exited(c) => c == Some(0i32),
    }
}

/// Executable test for [`cmd_ok`].
pub fn cmd_succeeded(o: &CmdOutcome) -> (r: bool)
    ensures
        r == cmd_ok(*o),
{
    match o {
        CmdOutcome::Exited(Some(c)) => *c == 0,
        _ => false,
    }
}

} // verus!
