//! Exit statuses of child processes and the exit codes derived from them.

use vstd::prelude::*;

verus! {

/// How a child process ended.
#[derive(Clone, Copy, Debug, PartialEq, Eq, Structural)]
pub enum Termination {
    /// The process exited with this code.
    Exited(u32),
    /// The process was killed by the signal with this number.
    Signaled(u8),
    /// The platform reported a status of neither kind.
    Other(i32),
    /// The process has ended, but how could not be found out.
    Undetermined,
}

/// Exit code recorded for a compiler run whose outcome could not be determined.
pub const BUILD_SENTINEL: i32 = 1;

/// Exit code reported for an artifact run whose outcome could not be determined.
pub const RUN_SENTINEL: i32 = -1;

/// The value of a 32-bit unsigned exit code read as a signed one
/// (two's complement).
pub open spec fn signed_code(code: u32) -> int {
    if code <= i32::MAX {
        code as int
    } else {
        code - 0x1_0000_0000
    }
}

/// The exit code that stands for a termination: the code of an exited
/// process, the number of the signal that killed it, the platform's raw
/// status, or `sentinel` where nothing is known.
pub open spec fn exit_code_of(status: Termination, sentinel: int) -> int {
    match status {
        Termination::Exited(code) => signed_code(code),
        Termination::Signaled(signal) => signal as int,
        Termination::Other(raw) => raw as int,
        Termination::Undetermined => sentinel,
    }
}

/// The exit code recorded for a compiler run. A run without a status counts
/// as undetermined.
pub open spec fn build_exit_code_of(status: Option<Termination>) -> int {
    match status {
        Some(t) => exit_code_of(t, BUILD_SENTINEL as int),
        None => BUILD_SENTINEL as int,
    }
}

impl Termination {
    /// Normalises this termination to an exit code, with `sentinel` for an
    /// undetermined one.
    pub fn exit_code(self, sentinel: i32) -> (code: i32)
        ensures
            code == exit_code_of(self, sentinel as int),
    {
        match self {
            Termination::Exited(code) => {
                if code <= 0x7fff_ffff {
                    code as i32
                } else {
                    let low: u32 = code - 0x8000_0000;
                    (low as i32) + i32::MIN
                }
            },
            Termination::Signaled(signal) => signal as i32,
            Termination::Other(raw) => raw,
            Termination::Undetermined => sentinel,
        }
    }
}

/// The exit code recorded in the cache for a finished compiler run.
pub fn build_exit_code(status: Option<Termination>) -> (code: i32)
    ensures
        code == build_exit_code_of(status),
{
    match status {
        Some(t) => t.exit_code(BUILD_SENTINEL),
        None => BUILD_SENTINEL,
    }
}

/// The exit code with which the tool itself ends after running an artifact.
pub fn run_exit_code(status: Termination) -> (code: i32)
    ensures
        code == exit_code_of(status, RUN_SENTINEL as int),
{
    status.exit_code(RUN_SENTINEL)
}

} // verus!
