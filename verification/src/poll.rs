//! Long-poll fetch loop: a state machine that issues one fetch at a time,
//! buffers the returned events, advances the cursor, and applies the retry
//! budget. The caller (the ingestion driver) performs the actual I/O and
//! feeds the classified outcome back in.

use vstd::prelude::*;
use crate::backoff::{backoff_delay_spec, BackoffVerdict, RetryState, RETRY_CAP};
use crate::classify::{EngineUpdate, ErrorCause, FetchEvent};
use crate::cursor::{advance_spec, CursorTracker};

verus! {

/// The cursor, retry count and liveness of one engine instance: everything
/// the loop's transition function depends on.
pub struct DriverState {
    pub cursor: i64,
    pub retry: u32,
    pub failure: Option<ErrorCause>,
}

pub open spec fn init_driver_state() -> DriverState {
    DriverState { cursor: 0, retry: 0, failure: None }
}

/// Cursor after a batch: one past the last id for a non-empty batch,
/// unchanged for an empty one.
pub open spec fn batch_cursor<B>(cursor: i64, evs: Seq<EngineUpdate<B>>) -> i64 {
    if evs.len() > 0 {
        advance_spec(cursor, evs.last().id)
    } else {
        cursor
    }
}

/// Cursor after a recoverable error: advanced past the salvaged id when the
/// fallback parse produced one.
pub open spec fn recovered_cursor(cursor: i64, recovered: Option<i64>) -> i64 {
    match recovered {
        Some(id) => advance_spec(cursor, id),
        None => cursor,
    }
}

/// The transition function of the fetch loop, on one classified outcome.
/// A failed state is absorbing: the loop issues no further fetches.
pub open spec fn next_driver_state<B>(s: DriverState, ev: FetchEvent<B>) -> DriverState {
    if s.failure is Some {
        s
    } else {
        match ev {
            FetchEvent::Batch(evs) => DriverState {
                cursor: batch_cursor(s.cursor, evs@),
                retry: 0,
                failure: None,
            },
            FetchEvent::Timeout => DriverState { cursor: s.cursor, retry: 0, failure: None },
            FetchEvent::Recoverable { cause, recovered } => {
                if s.retry < RETRY_CAP {
                    DriverState {
                        cursor: recovered_cursor(s.cursor, recovered),
                        retry: (s.retry + 1) as u32,
                        failure: None,
                    }
                } else {
                    DriverState {
                        cursor: recovered_cursor(s.cursor, recovered),
                        retry: s.retry,
                        failure: Some(ErrorCause::RetryBudgetExhausted),
                    }
                }
            },
            FetchEvent::Fatal(cause) => DriverState {
                cursor: s.cursor,
                retry: s.retry,
                failure: Some(cause),
            },
        }
    }
}

/// Where the loop stands between operations.
#[derive(Clone, Copy, Debug, PartialEq, Eq, Structural)]
pub enum LoopPhase {
    /// Ready to issue the next fetch once the buffer is drained.
    Idle,
    /// Exactly one fetch is outstanding.
    Fetching,
    /// Sleeping this many seconds before the next fetch.
    Backing(u64),
    /// Terminal: a fatal error or an exhausted retry budget.
    Failed(ErrorCause),
    /// Terminal: stopped by the caller (shutdown observed).
    Stopped,
}

/// What the loop asks of its driver after a response was taken in.
#[derive(Clone, Copy, Debug, PartialEq, Eq, Structural)]
pub enum Disposition {
    /// Nothing to wait for: drain the buffer, then fetch again.
    Proceed,
    /// Surface the error, sleep for the delay, then fetch again.
    Backoff(ErrorCause, u64),
    /// Surface the cause and stop: the loop is terminal.
    Halted(ErrorCause),
}

/// The fetch loop proper. At most one fetch is outstanding: `start_fetch`
/// moves to `Fetching` and only `on_response` leaves it.
pub struct FetchLoop<B> {
    pub cursor: CursorTracker,
    pub retry: RetryState,
    pub buffer: Vec<EngineUpdate<B>>,
    pub phase: LoopPhase,
}

/// The loop's state as the transition function sees it.
pub open spec fn as_driver_state<B>(lp: FetchLoop<B>) -> DriverState {
    DriverState {
        cursor: lp.cursor.offset,
        retry: lp.retry.count,
        failure: match lp.phase {
            LoopPhase::Failed(c) => Some(c),
            _ => None,
        },
    }
}

impl<B> FetchLoop<B> {
    pub fn new() -> (lp: Self)
        ensures
            lp.cursor.offset == 0,
            lp.retry.count == 0,
            lp.buffer@.len() == 0,
            lp.phase == LoopPhase::Idle,
    {
        FetchLoop {
            cursor: CursorTracker::new(),
            retry: RetryState::new(),
            buffer: Vec::new(),
            phase: LoopPhase::Idle,
        }
    }

    /// Issue the next fetch: hands back the offset to request. Only allowed
    /// once the buffer is drained, and never while another fetch is
    /// outstanding.
    pub fn start_fetch(&mut self) -> (offset: i64)
        requires
            old(self).phase == LoopPhase::Idle,
            old(self).buffer@.len() == 0,
        ensures
            offset == old(self).cursor.offset,
            final(self).cursor == old(self).cursor,
            final(self).retry == old(self).retry,
            final(self).buffer@ == old(self).buffer@,
            final(self).phase == LoopPhase::Fetching,
    {
        self.phase = LoopPhase::Fetching;
        self.cursor.offset
    }

    /// Take in the classified outcome of the outstanding fetch. The cursor,
    /// retry count and liveness move exactly as the transition function
    /// says; a successful batch lands in the buffer.
    pub fn on_response(&mut self, ev: FetchEvent<B>) -> (d: Disposition)
        requires
            old(self).phase == LoopPhase::Fetching,
            old(self).buffer@.len() == 0,
        ensures
            as_driver_state(*final(self)) == next_driver_state(as_driver_state(*old(self)), ev),
            match ev {
                FetchEvent::Batch(evs) => {
                    &&& final(self).buffer@ == evs@
                    &&& final(self).phase == LoopPhase::Idle
                    &&& d == Disposition::Proceed
                },
                FetchEvent::Timeout => {
                    &&& final(self).buffer@.len() == 0
                    &&& final(self).phase == LoopPhase::Idle
                    &&& d == Disposition::Proceed
                },
                FetchEvent::Recoverable { cause, recovered } => {
                    &&& final(self).buffer@.len() == 0
                    &&& if old(self).retry.count < RETRY_CAP {
                        let delay = backoff_delay_spec(old(self).retry.count);
                        &&& final(self).phase == LoopPhase::Backing(delay)
                        &&& d == Disposition::Backoff(cause, delay)
                    } else {
                        &&& final(self).phase == LoopPhase::Failed(
                            ErrorCause::RetryBudgetExhausted,
                        )
                        &&& d == Disposition::Halted(ErrorCause::RetryBudgetExhausted)
                    }
                },
                FetchEvent::Fatal(cause) => {
                    &&& final(self).buffer@.len() == 0
                    &&& final(self).phase == LoopPhase::Failed(cause)
                    &&& d == Disposition::Halted(cause)
                },
            },
    {
        match ev {
            FetchEvent::Batch(evs) => {
                if evs.len() > 0 {
                    let last_id = evs[evs.len() - 1].id;
                    self.cursor.advance(last_id);
                }
                self.buffer = evs;
                self.retry.reset();
                self.phase = LoopPhase::Idle;
                Disposition::Proceed
            },
            FetchEvent::Timeout => {
                self.retry.reset();
                self.phase = LoopPhase::Idle;
                Disposition::Proceed
            },
            FetchEvent::Recoverable { cause, recovered } => {
                if let Some(id) = recovered {
                    self.cursor.recover(id);
                }
                match self.retry.on_recoverable() {
                    BackoffVerdict::Delay(delay) => {
                        self.phase = LoopPhase::Backing(delay);
                        Disposition::Backoff(cause, delay)
                    },
                    BackoffVerdict::Exhausted => {
                        self.phase = LoopPhase::Failed(ErrorCause::RetryBudgetExhausted);
                        Disposition::Halted(ErrorCause::RetryBudgetExhausted)
                    },
                }
            },
            FetchEvent::Fatal(cause) => {
                self.phase = LoopPhase::Failed(cause);
                Disposition::Halted(cause)
            },
        }
    }

    /// Yield one buffered event, front first. Only once the buffer is empty
    /// does the loop issue another fetch.
    pub fn pop_event(&mut self) -> (r: Option<EngineUpdate<B>>)
        ensures
            final(self).cursor == old(self).cursor,
            final(self).retry == old(self).retry,
            final(self).phase == old(self).phase,
            old(self).buffer@.len() == 0 ==> {
                &&& r is None
                &&& final(self).buffer@ == old(self).buffer@
            },
            old(self).buffer@.len() > 0 ==> {
                &&& r == Some(old(self).buffer@[0])
                &&& final(self).buffer@ == old(self).buffer@.drop_first()
            },
    {
        if self.buffer.len() > 0 {
            Some(self.buffer.remove(0))
        } else {
            None
        }
    }

    /// The backoff sleep has elapsed: ready to fetch again.
    pub fn backoff_done(&mut self)
        requires
            old(self).phase is Backing,
        ensures
            final(self).cursor == old(self).cursor,
            final(self).retry == old(self).retry,
            final(self).buffer@ == old(self).buffer@,
            final(self).phase == LoopPhase::Idle,
    {
        self.phase = LoopPhase::Idle;
    }

    /// Shutdown observed: the loop issues no further fetches.
    pub fn halt(&mut self)
        ensures
            final(self).cursor == old(self).cursor,
            final(self).retry == old(self).retry,
            final(self).buffer@ == old(self).buffer@,
            final(self).phase == LoopPhase::Stopped,
    {
        self.phase = LoopPhase::Stopped;
    }
}

/// The server-side long-poll window and the client-side timeout on the same
/// request, both in seconds. The client allowance never undercuts the
/// server window, so an elapsed client timer means the window passed
/// without data, not a connection failure.
pub fn poll_windows() -> (w: (i32, u64))
    ensures
        w.0 > 0,
        w.1 >= w.0 as u64,
{
    (30, 30)
}

} // verus!
