//! When opening a game file fails, whether to try again: other programs may
//! hold a file for a moment, so a locked or refused file is tried again a
//! few times.
use vstd::prelude::*;

verus! {

/// How an attempt to open a file failed.
#[derive(Debug, Clone, Copy, PartialEq, Eq, Structural)]
pub enum OpenFailure {
    /// The file is locked or access was refused: it may be free soon.
    Busy,
    /// Any other failure.
    Other,
}

/// What to do after a failed attempt.
#[derive(Debug, Clone, Copy, PartialEq, Eq, Structural)]
pub enum RetryStep {
    /// Wait, then try again with this many tries left.
    Retry(u32),
    /// Give up and report the failure itself.
    Fail,
    /// Give up and report that every try was used.
    Exhausted,
}

/// What to do after an attempt failed with `failure` while `remaining_tries`
/// tries (this one included) were left: any failure but a busy file is
/// reported at once; a busy file is tried again while more than one try is
/// left, and once none is left the tries are exhausted.
pub fn next_step(remaining_tries: u32, failure: OpenFailure) -> (r: RetryStep)
    ensures
        remaining_tries > 1 && failure == OpenFailure::Busy ==> r == RetryStep::Retry(
            (remaining_tries - 1) as u32,
        ),
        failure == OpenFailure::Other ==> r == RetryStep::Fail,
        remaining_tries <= 1 && failure == OpenFailure::Busy ==> r == RetryStep::Exhausted,
{
    match failure {
        OpenFailure::Other => RetryStep::Fail,
        OpenFailure::Busy => if remaining_tries <= 1 {
            RetryStep::Exhausted
        } else {
            RetryStep::Retry(remaining_tries - 1)
        },
    }
}

} // verus!
