//! Ingestion driver: folds classified fetch outcomes through the fetch
//! loop, dispatching each event to the handler without blocking ingestion,
//! sleeping out backoff delays, and stopping on a fatal outcome or on
//! shutdown. `run_scripted` executes the whole policy over a pre-classified
//! sequence of outcomes, so the loop's behaviour can be checked end to end;
//! the proof functions at the bottom state the engine's guarantees.

use vstd::prelude::*;
use crate::backoff::{backoff_delay_spec, RETRY_CAP};
use crate::classify::{EngineUpdate, ErrorCause, FetchEvent};
use crate::poll::{
    as_driver_state, init_driver_state, next_driver_state, Disposition, DriverState, FetchLoop,
    LoopPhase,
};

verus! {

/// State of the engine after the first `k` outcomes of the script.
pub open spec fn driver_state_at<B>(script: Seq<FetchEvent<B>>, k: int) -> DriverState
    decreases k,
{
    if k <= 0 {
        init_driver_state()
    } else {
        next_driver_state(driver_state_at(script, k - 1), script[k - 1])
    }
}

/// Whether the engine still issues fetches going into step `k`.
pub open spec fn running_at<B>(script: Seq<FetchEvent<B>>, k: int) -> bool {
    driver_state_at(script, k).failure is None
}

/// Events handed to the handler by step `k` of the script.
pub open spec fn step_dispatched<B>(s: DriverState, ev: FetchEvent<B>) -> Seq<EngineUpdate<B>> {
    if s.failure is Some {
        Seq::empty()
    } else {
        match ev {
            FetchEvent::Batch(evs) => evs@,
            _ => Seq::empty(),
        }
    }
}

/// Backoff delay slept after step `k`, if any.
pub open spec fn step_delays<B>(s: DriverState, ev: FetchEvent<B>) -> Seq<u64> {
    if s.failure is None && ev is Recoverable && s.retry < RETRY_CAP {
        seq![backoff_delay_spec(s.retry)]
    } else {
        Seq::empty()
    }
}

/// Error surfaced to the observability hook by step `k`, if any. Every
/// classified error is reported, retried or not.
pub open spec fn step_reported<B>(s: DriverState, ev: FetchEvent<B>) -> Seq<ErrorCause> {
    if s.failure is Some {
        Seq::empty()
    } else {
        match ev {
            FetchEvent::Recoverable { cause, recovered } => seq![cause],
            FetchEvent::Fatal(cause) => seq![cause],
            _ => Seq::empty(),
        }
    }
}

/// Offsets requested by the fetches issued among the first `k` steps: one
/// per step taken while the engine was still running.
pub open spec fn offsets_upto<B>(script: Seq<FetchEvent<B>>, k: int) -> Seq<i64>
    decreases k,
{
    if k <= 0 {
        Seq::empty()
    } else {
        let pre = offsets_upto(script, k - 1);
        if running_at(script, k - 1) {
            pre.push(driver_state_at(script, k - 1).cursor)
        } else {
            pre
        }
    }
}

/// All events dispatched within the first `k` steps, in order.
pub open spec fn dispatched_upto<B>(script: Seq<FetchEvent<B>>, k: int) -> Seq<EngineUpdate<B>>
    decreases k,
{
    if k <= 0 {
        Seq::empty()
    } else {
        dispatched_upto(script, k - 1) + step_dispatched(
            driver_state_at(script, k - 1),
            script[k - 1],
        )
    }
}

/// All backoff delays slept within the first `k` steps, in order.
pub open spec fn delays_upto<B>(script: Seq<FetchEvent<B>>, k: int) -> Seq<u64>
    decreases k,
{
    if k <= 0 {
        Seq::empty()
    } else {
        delays_upto(script, k - 1) + step_delays(driver_state_at(script, k - 1), script[k - 1])
    }
}

/// All errors reported within the first `k` steps, in order.
pub open spec fn reported_upto<B>(script: Seq<FetchEvent<B>>, k: int) -> Seq<ErrorCause>
    decreases k,
{
    if k <= 0 {
        Seq::empty()
    } else {
        reported_upto(script, k - 1) + step_reported(
            driver_state_at(script, k - 1),
            script[k - 1],
        )
    }
}

/// How many script entries the run consumes: all of them, or fewer when
/// shutdown is observed first.
pub open spec fn effective_steps(len: nat, stop_before: Option<usize>) -> int {
    match stop_before {
        Some(sb) => if sb < len { sb as int } else { len as int },
        None => len as int,
    }
}

/// Everything one engine run produced, in the order it happened.
pub struct RunTrace<B> {
    /// Offset requested by each fetch that was issued.
    pub offsets: Vec<i64>,
    /// Events handed to the handler, in delivery order.
    pub dispatched: Vec<EngineUpdate<B>>,
    /// Backoff delays slept, in seconds.
    pub delays: Vec<u64>,
    /// Errors surfaced to the observability hook.
    pub reported: Vec<ErrorCause>,
    /// Why the loop became terminal, if it did.
    pub failure: Option<ErrorCause>,
    /// Cursor value when the run ended.
    pub final_cursor: i64,
    /// Consecutive-error count when the run ended.
    pub final_retry: u32,
    /// Offset of the final acknowledgment fetch made after shutdown, so the
    /// upstream durably marks delivered events as consumed.
    pub confirm_offset: Option<i64>,
}

/// A failed state never recovers: every later state is the same, and no
/// later step issues fetches, dispatches, sleeps or reports.
pub proof fn lemma_absorbing<B>(script: Seq<FetchEvent<B>>, j: int, k: int)
    requires
        0 <= j <= k,
        driver_state_at(script, j).failure is Some,
    ensures
        driver_state_at(script, k) == driver_state_at(script, j),
        offsets_upto(script, k) == offsets_upto(script, j),
        dispatched_upto(script, k) == dispatched_upto(script, j),
        delays_upto(script, k) == delays_upto(script, j),
        reported_upto(script, k) == reported_upto(script, j),
    decreases k - j,
{
    if k > j {
        lemma_absorbing(script, j, k - 1);
        assert(dispatched_upto(script, k) =~= dispatched_upto(script, k - 1));
        assert(delays_upto(script, k) =~= delays_upto(script, k - 1));
        assert(reported_upto(script, k) =~= reported_upto(script, k - 1));
    }
}

/// Run the ingestion policy over a script of classified fetch outcomes.
/// `stop_before` is the number of fetches after which the shutdown signal
/// is observed, if it fires during the run; on a clean shutdown the run
/// ends with a final acknowledgment fetch at the current cursor.
pub fn run_scripted<B>(script: Vec<FetchEvent<B>>, stop_before: Option<usize>) -> (r: RunTrace<B>)
    ensures
        ({
            let s0 = script@;
            let m = effective_steps(s0.len(), stop_before);
            let end = driver_state_at(s0, m);
            &&& r.offsets@ == offsets_upto(s0, m)
            &&& r.dispatched@ == dispatched_upto(s0, m)
            &&& r.delays@ == delays_upto(s0, m)
            &&& r.reported@ == reported_upto(s0, m)
            &&& r.failure == end.failure
            &&& r.final_cursor == end.cursor
            &&& r.final_retry == end.retry
            &&& r.confirm_offset == (if stop_before is Some && end.failure is None {
                Some(end.cursor)
            } else {
                Option::<i64>::None
            })
        }),
{
    let ghost s0 = script@;
    let mut script = script;
    let n: usize = match stop_before {
        Some(sb) => if sb < script.len() {
            sb
        } else {
            script.len()
        },
        None => script.len(),
    };
    let ghost m = effective_steps(s0.len(), stop_before);
    assert(m == n as int);

    let mut lp = FetchLoop::<B>::new();
    let mut offsets: Vec<i64> = Vec::new();
    let mut dispatched: Vec<EngineUpdate<B>> = Vec::new();
    let mut delays: Vec<u64> = Vec::new();
    let mut reported: Vec<ErrorCause> = Vec::new();
    let mut j: usize = 0;
    let mut halted = false;

    while j < n && !halted
        invariant
            0 <= j <= n,
            n as int == m,
            m <= s0.len(),
            script@ == s0.subrange(j as int, s0.len() as int),
            as_driver_state(lp) == driver_state_at(s0, j as int),
            lp.buffer@.len() == 0,
            !halted ==> lp.phase == LoopPhase::Idle,
            halted ==> lp.phase is Failed,
            offsets@ == offsets_upto(s0, j as int),
            dispatched@ == dispatched_upto(s0, j as int),
            delays@ == delays_upto(s0, j as int),
            reported@ == reported_upto(s0, j as int),
        decreases n - j,
    {
        let off = lp.start_fetch();
        offsets.push(off);
        let ev = script.remove(0);
        let ghost gev = ev;
        proof {
            assert(gev == s0[j as int]);
        }
        let cause_opt: Option<ErrorCause> = match &ev {
            FetchEvent::Recoverable { cause, recovered } => Some(*cause),
            FetchEvent::Fatal(cause) => Some(*cause),
            _ => None,
        };
        let d = lp.on_response(ev);
        if let Some(c) = cause_opt {
            reported.push(c);
        }
        match d {
            Disposition::Proceed => {
                while lp.buffer.len() > 0
                    invariant
                        lp.phase == LoopPhase::Idle,
                        as_driver_state(lp) == driver_state_at(s0, j as int + 1),
                        dispatched@ + lp.buffer@ == dispatched_upto(s0, j as int + 1),
                        delays@ == delays_upto(s0, j as int + 1),
                        reported@ == reported_upto(s0, j as int + 1),
                    decreases lp.buffer@.len(),
                {
                    let e = lp.pop_event().unwrap();
                    dispatched.push(e);
                }
            },
            Disposition::Backoff(_, delay) => {
                delays.push(delay);
                lp.backoff_done();
            },
            Disposition::Halted(_) => {
                halted = true;
            },
        }
        proof {
            assert(dispatched_upto(s0, j as int + 1) =~= dispatched@);
            assert(delays_upto(s0, j as int + 1) =~= delays@);
            assert(reported_upto(s0, j as int + 1) =~= reported@);
        }
        j = j + 1;
    }

    proof {
        if j < n {
            lemma_absorbing(s0, j as int, m);
        }
    }

    let failure = match lp.phase {
        LoopPhase::Failed(c) => Some(c),
        _ => None,
    };
    let confirm_offset = if stop_before.is_some() && failure.is_none() {
        Some(lp.cursor.offset)
    } else {
        None
    };
    RunTrace {
        offsets,
        dispatched,
        delays,
        reported,
        failure,
        final_cursor: lp.cursor.offset,
        final_retry: lp.retry.count,
        confirm_offset,
    }
}

/// A state still running at step `k` was running at every earlier step.
pub proof fn lemma_running_prefix<B>(script: Seq<FetchEvent<B>>, j: int, k: int)
    requires
        0 <= j <= k,
        running_at(script, k),
    ensures
        running_at(script, j),
{
    if !running_at(script, j) {
        lemma_absorbing(script, j, k);
    }
}

/// Shape of the offset trace: while the engine runs, step `i` issues
/// exactly one fetch, at the cursor going into that step.
pub proof fn lemma_offsets_entries<B>(script: Seq<FetchEvent<B>>, k: int)
    requires
        0 <= k,
    ensures
        offsets_upto(script, k).len() <= k,
        forall|i: int|
            0 <= i < offsets_upto(script, k).len() ==> running_at(script, i)
                && #[trigger] offsets_upto(script, k)[i] == driver_state_at(script, i).cursor,
        (k == 0 || running_at(script, k - 1)) ==> offsets_upto(script, k).len() == k,
    decreases k,
{
    if k > 0 {
        lemma_offsets_entries(script, k - 1);
        if running_at(script, k - 1) {
            if k >= 2 {
                lemma_running_prefix(script, k - 2, k - 1);
            }
            assert(offsets_upto(script, k - 1).len() == k - 1);
            assert forall|i: int| 0 <= i < offsets_upto(script, k).len() implies running_at(
                script,
                i,
            ) && offsets_upto(script, k)[i] == driver_state_at(script, i).cursor by {
                if i < k - 1 {
                    assert(offsets_upto(script, k)[i] == offsets_upto(script, k - 1)[i]);
                    assert(running_at(script, i) && offsets_upto(script, k - 1)[i]
                        == driver_state_at(script, i).cursor);
                } else {
                    assert(i == k - 1);
                }
            }
        } else {
            assert forall|i: int| 0 <= i < offsets_upto(script, k).len() implies running_at(
                script,
                i,
            ) && offsets_upto(script, k)[i] == driver_state_at(script, i).cursor by {
                assert(offsets_upto(script, k)[i] == offsets_upto(script, k - 1)[i]);
                assert(running_at(script, i) && offsets_upto(script, k - 1)[i]
                    == driver_state_at(script, i).cursor);
            }
        }
    }
}

/// One step never moves the cursor backwards.
pub proof fn lemma_step_cursor_ge<B>(s: DriverState, ev: FetchEvent<B>)
    ensures
        next_driver_state(s, ev).cursor >= s.cursor,
{
}

/// The cursor is non-decreasing across the run.
pub proof fn lemma_state_cursor_monotone<B>(script: Seq<FetchEvent<B>>, i: int, j: int)
    requires
        0 <= i <= j,
    ensures
        driver_state_at(script, i).cursor <= driver_state_at(script, j).cursor,
    decreases j - i,
{
    if j > i {
        lemma_state_cursor_monotone(script, i, j - 1);
        lemma_step_cursor_ge(driver_state_at(script, j - 1), script[j - 1]);
    }
}

/// Monotonic cursor: for any script of fetch outcomes, the offset used by
/// a later fetch is never below the offset used by an earlier one.
pub proof fn lemma_cursor_monotonic<B>(script: Seq<FetchEvent<B>>, k: int, i: int, j: int)
    requires
        0 <= k,
        0 <= i <= j < offsets_upto(script, k).len(),
    ensures
        offsets_upto(script, k)[i] <= offsets_upto(script, k)[j],
{
    lemma_offsets_entries(script, k);
    lemma_state_cursor_monotone(script, i, j);
}

/// The events of a batch outcome, empty for any other outcome.
pub open spec fn batch_events<B>(ev: FetchEvent<B>) -> Seq<EngineUpdate<B>> {
    match ev {
        FetchEvent::Batch(evs) => evs@,
        _ => Seq::empty(),
    }
}

/// Monotonic cursor, strict part: the fetch after a non-empty batch, or
/// after a recovery that salvaged an id at or above the requested offset,
/// asks for a strictly greater offset. The batch side assumes the upstream
/// contract: ids at or above the requested offset, below the id type's
/// maximum.
pub proof fn lemma_cursor_strictly_advances<B>(script: Seq<FetchEvent<B>>, k: int, i: int)
    requires
        0 <= i,
        i + 1 < offsets_upto(script, k).len(),
        ({
            let cur = driver_state_at(script, i).cursor;
            match script[i] {
                FetchEvent::Batch(evs) => evs@.len() > 0 && evs@.last().id >= cur
                    && evs@.last().id < i64::MAX,
                FetchEvent::Recoverable { cause, recovered } => match recovered {
                    Some(id) => id >= cur && id < i64::MAX,
                    None => false,
                },
                _ => false,
            }
        }),
    ensures
        offsets_upto(script, k)[i + 1] > offsets_upto(script, k)[i],
{
    lemma_offsets_entries(script, k);
}

/// The upstream contract for one batch: ids ascend, none is below the
/// offset the fetch asked for, and none is the maximum id.
pub open spec fn batch_honest<B>(evs: Seq<EngineUpdate<B>>, offset: i64) -> bool {
    &&& forall|a: int, b: int|
        #![trigger evs[a], evs[b]]
        0 <= a < b < evs.len() ==> evs[a].id < evs[b].id
    &&& forall|a: int| 0 <= a < evs.len() ==> (#[trigger] evs[a]).id >= offset
    &&& evs.len() > 0 ==> evs.last().id < i64::MAX
}

/// No redelivery within a run: two successful batches never share an event
/// id, as long as the upstream honors the requested offsets. In fact every
/// id of the later batch is strictly greater than every id of the earlier
/// one.
pub proof fn lemma_no_redelivery<B>(script: Seq<FetchEvent<B>>, i: int, j: int)
    requires
        0 <= i < j,
        running_at(script, i),
        running_at(script, j),
        script[i] is Batch,
        script[j] is Batch,
        batch_events(script[i]).len() > 0,
        batch_honest(batch_events(script[i]), driver_state_at(script, i).cursor),
        batch_honest(batch_events(script[j]), driver_state_at(script, j).cursor),
    ensures
        forall|a: int, b: int|
            #![trigger batch_events(script[i])[a], batch_events(script[j])[b]]
            0 <= a < batch_events(script[i]).len() && 0 <= b < batch_events(script[j]).len()
                ==> batch_events(script[i])[a].id < batch_events(script[j])[b].id,
{
    let evs_i = batch_events(script[i]);
    let evs_j = batch_events(script[j]);
    let cur_i = driver_state_at(script, i).cursor;
    let last_i = evs_i.last().id;
    assert(driver_state_at(script, i + 1).cursor == last_i + 1);
    lemma_state_cursor_monotone(script, i + 1, j);
    assert forall|a: int| 0 <= a < evs_i.len() implies evs_i[a].id <= last_i by {
        if a < evs_i.len() - 1 {
            assert(evs_i[a].id < evs_i[evs_i.len() - 1].id);
        }
    }
}

/// Backoff sequence: from a fresh state, `n` consecutive recoverable
/// errors within the budget sleep exactly the doubling delays, starting at
/// one second, and leave the retry count at `n`.
pub proof fn lemma_backoff_sequence<B>(script: Seq<FetchEvent<B>>, n: int)
    requires
        0 <= n <= RETRY_CAP,
        forall|k: int| 0 <= k < n ==> (#[trigger] script[k]) is Recoverable,
    ensures
        driver_state_at(script, n).retry == n,
        driver_state_at(script, n).failure is None,
        delays_upto(script, n) =~= Seq::new(n as nat, |i: int| backoff_delay_spec(i as u32)),
    decreases n,
{
    if n > 0 {
        lemma_backoff_sequence(script, n - 1);
        assert(delays_upto(script, n) =~= Seq::new(
            n as nat,
            |i: int| backoff_delay_spec(i as u32),
        ));
    }
}

/// The retry count resets to zero immediately after any batch or timeout.
pub proof fn lemma_retry_resets<B>(s: DriverState, ev: FetchEvent<B>)
    requires
        s.failure is None,
        ev is Batch || ev is Timeout,
    ensures
        next_driver_state(s, ev).retry == 0,
{
}

/// Cap enforcement: with the budget at `RETRY_CAP`, the recoverable error
/// after that many retries is terminal and sleeps no further delay.
pub proof fn lemma_retry_budget_cap<B>(script: Seq<FetchEvent<B>>)
    requires
        forall|k: int|
            0 <= k < RETRY_CAP + 1 ==> (#[trigger] script[k]) is Recoverable,
    ensures
        driver_state_at(script, RETRY_CAP + 1 as int).failure == Some(
            ErrorCause::RetryBudgetExhausted,
        ),
        delays_upto(script, RETRY_CAP + 1 as int) == delays_upto(script, RETRY_CAP as int),
        delays_upto(script, RETRY_CAP + 1 as int).len() == RETRY_CAP,
{
    lemma_backoff_sequence(script, RETRY_CAP as int);
    assert(delays_upto(script, RETRY_CAP + 1 as int) =~= delays_upto(script, RETRY_CAP as int));
}

} // verus!
