//! Signals to a process that this program did not create.
//!
//! Process ids are reused: a caller verifies the target's identity immediately
//! before it signals. Nothing here does that.

use vstd::prelude::*;

use crate::failure::Failure;

verus! {

pub const SIGTERM: i32 = 15;
pub const SIGKILL: i32 = 9;
pub const SIGCONT: i32 = 18;

/// One `kill(2)` call. A negative id addresses a process group.
#[derive(Clone, Copy, Debug, PartialEq, Eq, Structural)]
pub struct Kill {
    pub pid: i32,
    pub signal: i32,
}

/// The call that sends a signal to exactly one process. Zero and negative ids
/// address whole groups and one is init: all of them are refused.
pub fn signal(pid: i32, signal_number: i32) -> (call: Result<Kill, Failure>)
    ensures
        pid <= 1 ==> call == Err::<Kill, Failure>(Failure::InitOrGroup),
        pid > 1 ==> call == Ok::<Kill, Failure>(Kill { pid, signal: signal_number }),
{
    if pid <= 1 {
        return Err(Failure::InitOrGroup);
    }
    Ok(Kill { pid, signal: signal_number })
}

} // verus!
