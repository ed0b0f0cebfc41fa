use vstd::prelude::*;

use crate::error::UdtError;
use crate::socket::Interest;

verus! {

/// What the driver of one poll of a future does after an attempt: resolve, or
/// suspend in one of two ways, or make one more call on the socket and hand
/// its outcome back.
pub enum Step<T> {
    /// Resolve the future with this value.
    Ready(Result<T, UdtError>),
    /// Register the socket for this readiness on a private multiplexer, wait
    /// on it in the background, then wake the task.
    Suspend(Interest),
    /// Wake the task after this many milliseconds.
    Sleep(u64),
    /// Ask the socket how many bytes still wait to be sent.
    QueryPending,
    /// Close the socket and resolve with the outcome.
    Close,
}

/// The two outcomes of a poll as the scheduler sees them.
pub enum PollState<T> {
    Ready(Result<T, UdtError>),
    Pending,
}

/// A step that leaves the future unresolved until a wake.
pub open spec fn is_suspension<T>(s: Step<T>) -> bool {
    s is Suspend || s is Sleep
}

/// The poll that ends a run of polls: the first whose step resolves, every
/// earlier one having suspended.
pub open spec fn resolves_first_at<T>(steps: Seq<Step<T>>, k: int) -> bool {
    &&& 0 <= k < steps.len()
    &&& steps[k] is Ready
    &&& forall|i: int| 0 <= i < k ==> is_suspension(#[trigger] steps[i])
}

/// What a poll returns once the suspension it asked for was set up, or failed
/// to be: a setup failure resolves the future at once instead of leaving it
/// to hang.
pub fn suspension_outcome<T>(setup: Result<(), UdtError>) -> (r: PollState<T>)
    ensures
        setup is Ok ==> r is Pending,
        setup matches Err(e) ==> r == PollState::<T>::Ready(Err(e)),
{
    match setup {
        Ok(()) => PollState::Pending,
        Err(e) => PollState::Ready(Err(e)),
    }
}

} // verus!
