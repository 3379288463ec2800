//! Task tracker: accounts for in-flight handler invocations so shutdown
//! can wait for drain. The concurrency substrate delivers one message per
//! task start and one per task end; the waiter folds them through a
//! counter and completes when the counter returns to zero.

use vstd::prelude::*;

verus! {

/// One lifecycle message about a spawned task.
#[derive(Clone, Copy, Debug, PartialEq, Eq, Structural)]
pub enum TaskState {
    /// Sent when the task is handed to the substrate, before it runs.
    Starting,
    /// Sent when the task finishes, whether it succeeded or failed.
    Ended,
}

/// Starts minus ends among the first `k` messages.
pub open spec fn balance(msgs: Seq<TaskState>, k: int) -> int
    decreases k,
{
    if k <= 0 {
        0
    } else {
        balance(msgs, k - 1) + match msgs[k - 1] {
            TaskState::Starting => 1int,
            TaskState::Ended => -1int,
        }
    }
}

/// Every end is preceded by its own start: no prefix has more ends than
/// starts. The channel between spawner and waiter guarantees this.
pub open spec fn prefix_matched(msgs: Seq<TaskState>) -> bool {
    forall|k: int| 0 <= k <= msgs.len() ==> balance(msgs, k) >= 0
}

/// Index of the message at which the waiter completes: the first end that
/// brings the count of outstanding tasks back to zero.
pub open spec fn drain_scan(msgs: Seq<TaskState>, k: int, c: int) -> Option<int>
    decreases msgs.len() - k,
{
    if k < 0 || k >= msgs.len() {
        None
    } else {
        match msgs[k] {
            TaskState::Starting => drain_scan(msgs, k + 1, c + 1),
            TaskState::Ended => if c == 1 {
                Some(k)
            } else {
                drain_scan(msgs, k + 1, c - 1)
            },
        }
    }
}

pub open spec fn drain_point_spec(msgs: Seq<TaskState>) -> Option<int> {
    drain_scan(msgs, 0, 0)
}

/// The counter of outstanding handler invocations.
#[derive(Clone, Copy, Debug, PartialEq, Eq, Structural)]
pub struct TaskCounter {
    pub outstanding: usize,
}

impl TaskCounter {
    pub fn new() -> (c: Self)
        ensures
            c.outstanding == 0,
    {
        TaskCounter { outstanding: 0 }
    }

    /// A task was handed to the substrate.
    pub fn on_spawn(&mut self)
        requires
            old(self).outstanding < usize::MAX,
        ensures
            final(self).outstanding == old(self).outstanding + 1,
    {
        self.outstanding = self.outstanding + 1;
    }

    /// A task finished, successfully or not.
    pub fn on_task_end(&mut self)
        requires
            old(self).outstanding > 0,
        ensures
            final(self).outstanding == old(self).outstanding - 1,
    {
        self.outstanding = self.outstanding - 1;
    }

    /// The counter is zero exactly when no handler invocation is running.
    pub fn is_drained(&self) -> (r: bool)
        ensures
            r == (self.outstanding == 0),
    {
        self.outstanding == 0
    }
}

/// Fold a message sequence the way the waiter does, reporting the index at
/// which the waiter would stop blocking, or `None` if it would still wait
/// after all of them.
pub fn wait_drain(msgs: &Vec<TaskState>) -> (r: Option<usize>)
    requires
        prefix_matched(msgs@),
    ensures
        match drain_point_spec(msgs@) {
            Some(k) => r == Some(k as usize),
            None => r is None,
        },
{
    let mut counter: usize = 0;
    let mut i: usize = 0;
    while i < msgs.len()
        invariant
            prefix_matched(msgs@),
            0 <= i <= msgs@.len(),
            counter == balance(msgs@, i as int),
            drain_scan(msgs@, i as int, counter as int) == drain_point_spec(msgs@),
        decreases msgs@.len() - i,
    {
        proof {
            assert(balance(msgs@, i as int + 1) >= 0);
        }
        match msgs[i] {
            TaskState::Starting => {
                proof {
                    lemma_balance_bounded(msgs@, i as int);
                    assert(counter < usize::MAX);
                }
                counter = counter + 1;
            },
            TaskState::Ended => {
                counter = counter - 1;
                if counter == 0 {
                    return Some(i);
                }
            },
        }
        i = i + 1;
    }
    None
}

/// The balance over a prefix never exceeds the prefix length.
pub proof fn lemma_balance_bounded(msgs: Seq<TaskState>, k: int)
    requires
        0 <= k <= msgs.len(),
    ensures
        balance(msgs, k) <= k,
    decreases k,
{
    if k > 0 {
        lemma_balance_bounded(msgs, k - 1);
    }
}

/// Drain correctness: after `n` tasks are spawned and then complete, in
/// whatever order the substrate finishes them, the waiter completes
/// exactly with the last completion and never before. Completions are
/// indistinguishable to the counter, so any completion order is this same
/// message sequence.
pub proof fn lemma_drain_waits_for_all(msgs: Seq<TaskState>, n: int)
    requires
        n >= 1,
        msgs.len() == 2 * n,
        forall|k: int| 0 <= k < n ==> msgs[k] == TaskState::Starting,
        forall|k: int| n <= k < 2 * n ==> msgs[k] == TaskState::Ended,
    ensures
        drain_point_spec(msgs) == Some(2 * n - 1),
{
    walk_starts(msgs, n, 0);
    walk_ends(msgs, n, n);
}

proof fn walk_starts(msgs: Seq<TaskState>, n: int, k: int)
    requires
        n >= 1,
        msgs.len() == 2 * n,
        forall|k: int| 0 <= k < n ==> msgs[k] == TaskState::Starting,
        0 <= k <= n,
    ensures
        drain_scan(msgs, k, k) == drain_scan(msgs, n, n),
    decreases n - k,
{
    if k < n {
        walk_starts(msgs, n, k + 1);
    }
}

proof fn walk_ends(msgs: Seq<TaskState>, n: int, k: int)
    requires
        n >= 1,
        msgs.len() == 2 * n,
        forall|k: int| n <= k < 2 * n ==> msgs[k] == TaskState::Ended,
        n <= k < 2 * n,
    ensures
        drain_scan(msgs, k, 2 * n - k) == Some(2 * n - 1),
    decreases 2 * n - k,
{
    if k < 2 * n - 1 {
        walk_ends(msgs, n, k + 1);
    }
}

} // verus!
