//! The result of waiting on one spawned child process, and the single,
//! central mapping from such a result to the wrapper's own exit code.

use vstd::prelude::*;

verus! {

/// What one spawn-and-wait of a child process yielded.
#[derive(Clone, Copy, Debug, PartialEq, Eq, Structural)]
pub enum ProcessOutcome {
    /// The child ran to completion and reported this exit code.
    Exited { code: i32 },
    /// The child was terminated by a signal, so no exit code exists.
    Signaled,
    /// The child could not be spawned at all.
    SpawnFailed,
}

/// The exit code the wrapper reports for a main-tool invocation with this
/// outcome: the tool's own code when one exists, and 1 when the tool was
/// killed by a signal or could not be spawned.
pub open spec fn wrapper_code_spec(o: ProcessOutcome) -> i32 {
    match o {
        ProcessOutcome::Exited { code } => code,
        ProcessOutcome::Signaled => 1i32,
        ProcessOutcome::SpawnFailed => 1i32,
    }
}

/// A hook stage is fatal to the wrapper only when its process could not be
/// spawned; a hook that ran and exited non-zero is merely reported.
pub open spec fn hook_fatal_spec(o: ProcessOutcome) -> bool {
    o is SpawnFailed
}

/// Maps a main-tool outcome to the wrapper's own exit code.
pub fn wrapper_exit_code(o: &ProcessOutcome) -> (r: i32)
    ensures
        r == wrapper_code_spec(*o),
{
    match o {
        ProcessOutcome::Exited { code } => *code,
        ProcessOutcome::Signaled => 1,
        ProcessOutcome::SpawnFailed => 1,
    }
}

/// Decides whether a hook stage's outcome must abort the whole wrapper.
pub fn hook_stage_fatal(o: &ProcessOutcome) -> (r: bool)
    ensures
        r == hook_fatal_spec(*o),
{
    match o {
        ProcessOutcome::SpawnFailed => true,
        _ => false,
    }
}

} // verus!
