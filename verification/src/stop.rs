//! Noticing that this process has been asked to stop.
//!
//! A signal handler may do next to nothing, so it only records which signal
//! arrived; the session loop, which wakes on a timer, acts on the record.

use vstd::prelude::*;

use crate::failure::Failure;
use crate::step::Step;

verus! {

pub const SIGHUP: i32 = 1;
pub const SIGINT: i32 = 2;
pub const SIGTERM: i32 = 15;

/// Every signal that means "finish what you are doing and give things back": a
/// `kill` with no arguments, a Ctrl-C, and a closed terminal.
pub const CAUGHT: [i32; 3] = [SIGTERM, SIGINT, SIGHUP];

/// What a record holds while no signal has arrived.
pub const NONE: i32 = 0;

/// What `signal(2)` returns where it cannot install a handler.
pub const SIG_ERR: usize = usize::MAX;

/// The record of the last signal that arrived.
#[derive(Clone, Copy, Debug, PartialEq, Eq, Structural)]
pub struct Record {
    pub number: i32,
}

/// What `signal(2)` came to for the signal at a position of [`CAUGHT`].
#[derive(Clone, Copy, Debug, PartialEq, Eq)]
pub struct HandlerReply {
    pub position: usize,
    /// The handler that was installed before, or [`SIG_ERR`].
    pub previous: usize,
    pub errno: i32,
}

/// What follows an attempt to install a handler.
pub open spec fn after_attempt(reply: HandlerReply) -> Step<usize> {
    if reply.previous == usize::MAX {
        Step::Fail(Failure::Kernel(reply.errno))
    } else if reply.position < 2 {
        Step::Perform((reply.position + 1) as usize)
    } else {
        Step::Finish
    }
}

/// Installs the handlers one by one: given what the last attempt came to, or
/// nothing at the start, the position in [`CAUGHT`] of the next signal to
/// route here. The first refusal ends it; a caller carries on regardless.
pub fn catch_requests(attempt: Option<HandlerReply>) -> (next: Step<usize>)
    ensures
        attempt is None ==> next == Step::Perform(0usize),
        attempt is Some ==> next == after_attempt(attempt->0),
        next matches Step::Perform(position) ==> position < 3,
        attempt matches Some(reply) ==> {
            &&& reply.previous == usize::MAX ==> next == Step::<usize>::Fail(
                Failure::Kernel(reply.errno),
            )
            &&& reply.previous != usize::MAX && reply.position < 2 ==> next == Step::Perform(
                (reply.position + 1) as usize,
            )
            &&& reply.previous != usize::MAX && reply.position >= 2 ==> next is Finish
        },
{
    match attempt {
        None => Step::Perform(0),
        Some(reply) => {
            if reply.previous == SIG_ERR {
                Step::Fail(Failure::Kernel(reply.errno))
            } else if reply.position < CAUGHT.len() - 1 {
                Step::Perform(reply.position + 1)
            } else {
                Step::Finish
            }
        },
    }
}

/// Where the installation stands that waits for the attempt at `position` and
/// is then told, one by one, which handlers were there and which errors arose.
pub open spec fn installed(position: usize, told: Seq<(usize, i32)>) -> Step<usize>
    decreases told.len(),
{
    if told.len() == 0 {
        Step::Perform(position)
    } else {
        let (previous, errno) = told[0];
        match after_attempt(HandlerReply { position, previous, errno }) {
            Step::Perform(next) => installed(next, told.skip(1)),
            end => end,
        }
    }
}

/// The installation finishes exactly where all three handlers are installed,
/// and otherwise ends with the error of the first that is not.
pub proof fn law_every_signal_is_caught(told: Seq<(usize, i32)>)
    requires
        told.len() == 3,
    ensures
        installed(0, told) is Finish <==> forall|i: int|
            0 <= i < 3 ==> (#[trigger] told[i]).0 != SIG_ERR,
        forall|i: int|
            0 <= i < 3 && (#[trigger] told[i]).0 == SIG_ERR && (forall|j: int|
                0 <= j < i ==> (#[trigger] told[j]).0 != SIG_ERR) ==> installed(0, told)
                == Step::<usize>::Fail(Failure::Kernel(told[i].1)),
{
    reveal_with_fuel(installed, 4);
    assert(told.skip(1)[0] == told[1]);
    assert(told.skip(1).skip(1)[0] == told[2]);
    assert(told[0].0 == told[0].0 && told[1].0 == told[1].0 && told[2].0 == told[2].0);
}

/// A record that holds no signal.
pub fn nothing_recorded() -> (record: Record)
    ensures
        record.number == NONE,
{
    Record { number: NONE }
}

/// Records a signal. This is all that the handler does.
pub fn record(record: &mut Record, number: i32)
    ensures
        final(record).number == number,
{
    record.number = number;
}

/// The signal that a record holds.
pub open spec fn pending(record: Record) -> Option<i32> {
    if record.number == NONE {
        None
    } else {
        Some(record.number)
    }
}

/// A record reports the number it holds, whichever signal that is, and only
/// zero stands for none: two records that report the same hold the same.
pub proof fn law_records_report_what_they_hold(first: Record, second: Record)
    ensures
        pending(first) is None <==> first.number == 0,
        pending(first) is Some ==> pending(first)->0 == first.number,
        pending(first) == pending(second) ==> first == second,
{
}

/// Each signal that is routed here is reported once it is recorded: none of
/// them is the number that means no signal.
pub proof fn law_caught_signal_is_reported(position: int)
    requires
        0 <= position < CAUGHT@.len(),
    ensures
        pending(Record { number: CAUGHT@[position] }) == Some(CAUGHT@[position]),
{
}

/// The signal that asked this process to stop, if one has arrived.
#[must_use]
pub fn requested(record: &Record) -> (number: Option<i32>)
    ensures
        number == pending(*record),
        record.number == 0 ==> number is None,
        record.number != 0 ==> number == Some(record.number),
{
    if record.number == NONE {
        None
    } else {
        Some(record.number)
    }
}

/// Forgets a recorded signal.
pub fn forget_for_test(record: &mut Record)
    ensures
        final(record).number == NONE,
{
    record.number = NONE;
}

/// A name for the signal, for the line the session prints on the way out.
#[must_use]
pub fn name(number: i32) -> (text: &'static str)
    ensures
        number == SIGHUP ==> text@ == "SIGHUP"@,
        number == SIGINT ==> text@ == "SIGINT"@,
        number == SIGTERM ==> text@ == "SIGTERM"@,
        number != SIGHUP && number != SIGINT && number != SIGTERM ==> text@ == "a signal"@,
{
    if number == SIGHUP {
        "SIGHUP"
    } else if number == SIGINT {
        "SIGINT"
    } else if number == SIGTERM {
        "SIGTERM"
    } else {
        "a signal"
    }
}

} // verus!
