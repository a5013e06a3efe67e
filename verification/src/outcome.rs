//! Termination status of the launched command, and how it becomes a process
//! exit code.

use vstd::prelude::*;

verus! {

/// How the launched command ended: normally with a status code, or abnormally
/// (for example killed by a signal) without one.
#[derive(Clone, Copy, PartialEq, Eq, Debug)]
pub enum ExitOutcome {
    Code(i32),
    Abnormal,
}

/// The process exit code that an outcome maps to: the command's own code when
/// it ended normally, and 1 when it ended abnormally without a code.
pub open spec fn exit_code_spec(o: ExitOutcome) -> i32 {
    match o {
        ExitOutcome::Code(n) => n,
        ExitOutcome::Abnormal => 1,
    }
}

/// Maps a termination outcome to the exit code the terminating process adopts.
pub fn exit_code(o: &ExitOutcome) -> (r: i32)
    ensures
        r == exit_code_spec(*o),
{
    match o {
        ExitOutcome::Code(n) => *n,
        ExitOutcome::Abnormal => 1,
    }
}

} // verus!
