//! Why an operation did not succeed.

use vstd::prelude::*;

verus! {

/// A refusal, by the kernel or by this library before the kernel was asked.
#[derive(Clone, Copy, Debug, PartialEq, Eq, Structural)]
pub enum Failure {
    /// The kernel refused the call and left this error number.
    Kernel(i32),
    /// The target is init, a process group, or no process at all.
    InitOrGroup,
    /// The id addresses the caller's own group or every process, and not the
    /// group of a leader.
    LeaderHasNoGroup,
    /// The process id cannot be represented by the platform API.
    ProcessIdTooLarge,
    /// A path that would be cut at its NUL byte.
    SandboxPathHasNul,
    /// The kernel's name for a terminal is not UTF-8.
    TerminalNameNotText,
}

/// The class of a refusal, for callers that only sort errors.
#[derive(Clone, Copy, Debug, PartialEq, Eq, Structural)]
pub enum FailureKind {
    Os,
    InvalidInput,
    InvalidData,
}

impl Failure {
    /// The class this refusal belongs to.
    pub fn kind(&self) -> (kind: FailureKind)
        ensures
            kind == (match *self {
                Failure::Kernel(_) => FailureKind::Os,
                Failure::TerminalNameNotText => FailureKind::InvalidData,
                _ => FailureKind::InvalidInput,
            }),
    {
        match *self {
            Failure::Kernel(_) => FailureKind::Os,
            Failure::TerminalNameNotText => FailureKind::InvalidData,
            _ => FailureKind::InvalidInput,
        }
    }

    /// The text of a refusal made here. The text for an error number is the
    /// operating system's and is not repeated.
    pub fn message(&self) -> (text: Option<&'static str>)
        ensures
            *self is Kernel <==> text is None,
            *self is InitOrGroup ==> text->0@ == "refusing to signal init or a process group"@,
            *self is LeaderHasNoGroup ==> text->0@ == "process id addresses no group of its own"@,
            *self is ProcessIdTooLarge ==> text->0@ == "process id is too large"@,
            *self is SandboxPathHasNul ==> text->0@ == "sandbox path has NUL"@,
            *self is TerminalNameNotText ==> text->0@ == "terminal name is not text"@,
    {
        match *self {
            Failure::Kernel(_) => None,
            Failure::InitOrGroup => Some("refusing to signal init or a process group"),
            Failure::LeaderHasNoGroup => Some("process id addresses no group of its own"),
            Failure::ProcessIdTooLarge => Some("process id is too large"),
            Failure::SandboxPathHasNul => Some("sandbox path has NUL"),
            Failure::TerminalNameNotText => Some("terminal name is not text"),
        }
    }
}

/// What a call that reports failure by a negative result has come to.
pub open spec fn outcome(result: i32, errno: i32) -> Result<(), Failure> {
    if result < 0 {
        Err(Failure::Kernel(errno))
    } else {
        Ok(())
    }
}

/// A call has failed exactly where its result is negative, and what it failed
/// of is the error number that was left, whatever the two are.
pub proof fn law_negative_results_are_failures(result: i32, errno: i32)
    ensures
        outcome(result, errno) is Ok <==> result >= 0,
        forall|other: i32|
            other < 0 && result < 0 ==> #[trigger] outcome(other, errno) == outcome(result, errno),
        result < 0 ==> outcome(result, errno)->Err_0 == Failure::Kernel(errno),
{
}

/// Reads the result of a call that reports failure by a negative number,
/// together with the error number the kernel left.
pub fn completed(result: i32, errno: i32) -> (done: Result<(), Failure>)
    ensures
        done == outcome(result, errno),
        result < 0 ==> done == Err::<(), Failure>(Failure::Kernel(errno)),
        result >= 0 ==> done == Ok::<(), Failure>(()),
{
    if result < 0 {
        Err(Failure::Kernel(errno))
    } else {
        Ok(())
    }
}

} // verus!
