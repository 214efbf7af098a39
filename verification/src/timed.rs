//! Settling a call that was raced against a timer.
//!
//! Every remote operation runs against a time limit. The caller's scheduler
//! runs the race; this module decides what the race means for the call.

use crate::failure::Failure;
use vstd::prelude::*;

verus! {

/// How a race between an operation and its timer ended.
#[derive(Clone, Debug, PartialEq, Eq)]
pub enum Raced<T> {
    /// The operation finished first, with this outcome.
    Completed(T),
    /// The timer fired first; the operation was abandoned.
    Expired,
}

impl<T> Raced<T> {
    /// The race as decided by the clock: an operation that took `elapsed`
    /// milliseconds against a limit of `timeout` milliseconds has completed
    /// if it took strictly less than the limit, and has expired otherwise.
    pub fn after(timeout: u64, elapsed: u64, outcome: T) -> (raced: Raced<T>)
        ensures
            elapsed < timeout ==> raced == Raced::Completed(outcome),
            elapsed >= timeout ==> raced == Raced::<T>::Expired,
    {
        if elapsed < timeout {
            Raced::Completed(outcome)
        } else {
            Raced::Expired
        }
    }
}

/// What a timed call returns: the operation's own outcome, be it a success
/// or a failure of its own, unchanged where the operation completed, and
/// `Timeout` with the limit where the timer fired first.
pub open spec fn settled<R>(timeout: u64, raced: Raced<R>) -> Result<R, Failure> {
    match raced {
        Raced::Completed(outcome) => Ok(outcome),
        Raced::Expired => Err(Failure::Timeout { millis: timeout }),
    }
}

/// Settles a call that ran against a limit of `timeout` milliseconds.
pub fn settle<R>(timeout: u64, raced: Raced<R>) -> (result: Result<R, Failure>)
    ensures
        result == settled(timeout, raced),
{
    match raced {
        Raced::Completed(outcome) => Ok(outcome),
        Raced::Expired => Err(Failure::Timeout { millis: timeout }),
    }
}

/// Settles a call whose operation took `elapsed` milliseconds to produce
/// `outcome`, against a limit of `timeout` milliseconds: the call has its
/// outcome if it took strictly less than the limit, and times out
/// otherwise.
pub fn settle_after<R>(timeout: u64, elapsed: u64, outcome: R) -> (result: Result<R, Failure>)
    ensures
        elapsed < timeout ==> result == Ok::<R, Failure>(outcome),
        elapsed >= timeout ==> result == Err::<R, Failure>(Failure::Timeout { millis: timeout }),
{
    settle(timeout, Raced::after(timeout, elapsed, outcome))
}

} // verus!
