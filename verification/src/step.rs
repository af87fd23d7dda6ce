//! Calls that are made one after another.

use vstd::prelude::*;

use crate::failure::Failure;

verus! {

/// What to do next: make a call and report what it came to, or stop.
#[derive(Debug, PartialEq, Eq)]
pub enum Step<C> {
    Perform(C),
    Finish,
    Fail(Failure),
}

} // verus!
