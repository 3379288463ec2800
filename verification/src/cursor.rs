//! Cursor tracker: owns the offset of the next event to request and only
//! ever moves it forward.

use vstd::prelude::*;

verus! {

/// The offset after seeing an event id: one past the id, except that the
/// cursor never moves backwards and never overflows.
pub open spec fn advance_spec(cur: i64, id: i64) -> i64 {
    if id < cur {
        cur
    } else if id == i64::MAX {
        id
    } else {
        (id + 1) as i64
    }
}

/// Tracks the id of the next event not yet requested. Monotonically
/// non-decreasing for the lifetime of one engine instance.
#[derive(Clone, Copy, Debug, PartialEq, Eq, Structural)]
pub struct CursorTracker {
    pub offset: i64,
}

impl CursorTracker {
    pub fn new() -> (c: Self)
        ensures
            c.offset == 0,
    {
        CursorTracker { offset: 0 }
    }

    /// Move the cursor past an event id seen in a successful batch. An id
    /// below the current offset leaves the cursor unchanged, so the cursor
    /// never decreases.
    pub fn advance(&mut self, last_id: i64)
        ensures
            final(self).offset == advance_spec(old(self).offset, last_id),
            final(self).offset >= old(self).offset,
    {
        if last_id >= self.offset {
            if last_id < i64::MAX {
                self.offset = last_id + 1;
            } else {
                self.offset = last_id;
            }
        }
    }

    /// Move the cursor past an id salvaged from a response that failed the
    /// typed decode. Same effect as `advance`; kept separate so call sites
    /// read as the recovery path.
    pub fn recover(&mut self, candidate_id: i64)
        ensures
            final(self).offset == advance_spec(old(self).offset, candidate_id),
            final(self).offset >= old(self).offset,
    {
        self.advance(candidate_id);
    }
}

} // verus!
