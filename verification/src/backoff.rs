//! Backoff controller: a pure function from the retry count to the next
//! delay, with a fixed budget after which the engine gives up.

use vstd::prelude::*;

verus! {

/// Number of consecutive recoverable errors the engine is willing to retry.
/// The error after that many retries is terminal.
pub const RETRY_CAP: u32 = 13;

/// What the backoff controller says about one more recoverable error.
#[derive(Clone, Copy, Debug, PartialEq, Eq, Structural)]
pub enum BackoffVerdict {
    /// Retry after this many seconds.
    Delay(u64),
    /// The retry budget is exhausted; the engine must stop.
    Exhausted,
}

/// Delay in seconds before the retry with the given count: doubling,
/// starting from one second.
pub open spec fn backoff_delay_spec(retries: u32) -> u64 {
    1u64 << retries
}

/// Decide, from the number of recoverable errors seen so far, whether to
/// retry and after how long. Total: no input overflows or panics.
pub fn backoff_decision(retries: u32) -> (v: BackoffVerdict)
    ensures
        retries < RETRY_CAP ==> v == BackoffVerdict::Delay(backoff_delay_spec(retries)),
        retries >= RETRY_CAP ==> v == BackoffVerdict::Exhausted,
{
    if retries < RETRY_CAP {
        BackoffVerdict::Delay(1u64 << retries)
    } else {
        BackoffVerdict::Exhausted
    }
}

/// Count of consecutive recoverable errors since the last success or
/// timeout.
#[derive(Clone, Copy, Debug, PartialEq, Eq, Structural)]
pub struct RetryState {
    pub count: u32,
}

impl RetryState {
    pub fn new() -> (s: Self)
        ensures
            s.count == 0,
    {
        RetryState { count: 0 }
    }

    /// A successful batch or a long-poll timeout clears the error streak.
    pub fn reset(&mut self)
        ensures
            final(self).count == 0,
    {
        self.count = 0;
    }

    /// Record one more recoverable error: either hand back the delay to
    /// sleep before the retry, or report the budget as exhausted.
    pub fn on_recoverable(&mut self) -> (v: BackoffVerdict)
        ensures
            old(self).count < RETRY_CAP ==> {
                &&& v == BackoffVerdict::Delay(backoff_delay_spec(old(self).count))
                &&& final(self).count == old(self).count + 1
            },
            old(self).count >= RETRY_CAP ==> {
                &&& v == BackoffVerdict::Exhausted
                &&& final(self).count == old(self).count
            },
    {
        let v = backoff_decision(self.count);
        if self.count < RETRY_CAP {
            self.count = self.count + 1;
        }
        v
    }
}

} // verus!
