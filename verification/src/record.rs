//! Reply records: which reply message answered which incoming message,
//! so an edited command can update or delete its reply. Records expire
//! after the window in which the upstream still allows edits.

use vstd::prelude::*;
use vstd::pervasive::VecAdditionalExecFns;

verus! {

/// Seconds after which a message can no longer be edited and its record
/// can be dropped.
pub const EDIT_WINDOW_SECS: i64 = 172800;

/// One remembered exchange: the incoming message, the reply sent for it
/// if any, and the incoming message's date as a Unix timestamp.
#[derive(Clone, Copy, Debug, PartialEq, Eq, Structural)]
pub struct Record {
    pub msg: i64,
    pub reply: Option<i64>,
    pub date: i64,
}

/// Index of the most recent record for the message, if any.
pub open spec fn find_index(rs: Seq<Record>, msg: i64) -> Option<int>
    decreases rs.len(),
{
    if rs.len() == 0 {
        None
    } else if rs.last().msg == msg {
        Some(rs.len() - 1)
    } else {
        find_index(rs.drop_last(), msg)
    }
}

/// How many records at the front are old enough to drop.
pub open spec fn expired_prefix(rs: Seq<Record>, cutoff: int) -> int
    decreases rs.len(),
{
    if rs.len() == 0 {
        0
    } else if rs[0].date <= cutoff {
        1 + expired_prefix(rs.drop_first(), cutoff)
    } else {
        0
    }
}

pub proof fn lemma_expired_prefix_range(rs: Seq<Record>, cutoff: int)
    ensures
        0 <= expired_prefix(rs, cutoff) <= rs.len(),
    decreases rs.len(),
{
    if rs.len() > 0 && rs[0].date <= cutoff {
        lemma_expired_prefix_range(rs.drop_first(), cutoff);
    }
}

/// The record list, oldest first.
pub struct RecordService {
    pub records: Vec<Record>,
}

impl RecordService {
    /// A fresh, empty record list.
    pub fn init() -> (s: Self)
        ensures
            s.records@ == Seq::<Record>::empty(),
    {
        RecordService { records: Vec::new() }
    }

    /// Restore the list saved by an earlier run.
    pub fn from_saved(records: Vec<Record>) -> (s: Self)
        ensures
            s.records@ == records@,
    {
        RecordService { records }
    }

    /// Remember a new incoming message, with no reply yet.
    pub fn push_record(&mut self, msg: i64, date: i64)
        ensures
            final(self).records@ == old(self).records@.push(
                Record { msg, reply: None, date },
            ),
    {
        self.records.push(Record { msg, reply: None, date });
    }

    /// Index of the most recent record for the message.
    fn find_record(&self, msg: i64) -> (r: Option<usize>)
        ensures
            match r {
                Some(iu) => find_index(self.records@, msg) == Some(iu as int) && iu
                    < self.records@.len(),
                None => find_index(self.records@, msg) is None,
            },
    {
        let mut i = self.records.len();
        proof {
            assert(self.records@.take(i as int) =~= self.records@);
        }
        while i > 0
            invariant
                0 <= i <= self.records@.len(),
                find_index(self.records@, msg) == find_index(
                    self.records@.take(i as int),
                    msg,
                ),
            decreases i,
        {
            proof {
                assert(self.records@.take(i as int).last() == self.records@[i - 1]);
                assert(self.records@.take(i as int).drop_last() =~= self.records@.take(
                    i as int - 1,
                ));
            }
            if self.records[i - 1].msg == msg {
                return Some(i - 1);
            }
            i = i - 1;
        }
        None
    }

    /// The reply recorded for the message, if any.
    pub fn find_reply(&self, msg: i64) -> (r: Option<i64>)
        ensures
            match find_index(self.records@, msg) {
                Some(i) => r == self.records@[i].reply,
                None => r is None,
            },
    {
        match self.find_record(msg) {
            Some(i) => self.records[i].reply,
            None => None,
        }
    }

    /// Record the reply sent for the message. A message without a record
    /// is left alone.
    pub fn set_reply(&mut self, msg: i64, reply: i64)
        ensures
            match find_index(old(self).records@, msg) {
                Some(i) => final(self).records@ == old(self).records@.update(
                    i,
                    Record { reply: Some(reply), ..old(self).records@[i] },
                ),
                None => final(self).records@ == old(self).records@,
            },
    {
        match self.find_record(msg) {
            Some(i) => {
                let r = self.records[i];
                self.records.set(i, Record { reply: Some(reply), ..r });
            },
            None => {},
        }
    }

    /// Forget the reply recorded for the message, keeping the record.
    pub fn remove_reply(&mut self, msg: i64)
        ensures
            match find_index(old(self).records@, msg) {
                Some(i) => final(self).records@ == old(self).records@.update(
                    i,
                    Record { reply: None, ..old(self).records@[i] },
                ),
                None => final(self).records@ == old(self).records@,
            },
    {
        match self.find_record(msg) {
            Some(i) => {
                let r = self.records[i];
                self.records.set(i, Record { reply: None, ..r });
            },
            None => {},
        }
    }

    /// Drop the records too old to matter: messages from before the edit
    /// window cannot be edited any more. Stops at the first record still
    /// inside the window.
    pub fn clear_old_records(&mut self, current_date: i64)
        requires
            current_date >= i64::MIN + EDIT_WINDOW_SECS,
        ensures
            final(self).records@ == old(self).records@.skip(
                expired_prefix(old(self).records@, current_date - EDIT_WINDOW_SECS),
            ),
    {
        let cutoff = current_date - EDIT_WINDOW_SECS;
        let ghost orig = self.records@;
        let mut dropped: usize = 0;
        proof {
            assert(orig.skip(0) =~= orig);
            lemma_expired_prefix_range(orig, cutoff as int);
        }
        while dropped < self.records.len() && self.records[dropped].date <= cutoff
            invariant
                0 <= dropped <= orig.len(),
                self.records@ == orig,
                expired_prefix(orig, cutoff as int) == dropped as int + expired_prefix(
                    orig.skip(dropped as int),
                    cutoff as int,
                ),
            decreases orig.len() - dropped,
        {
            proof {
                assert(orig.skip(dropped as int)[0] == orig[dropped as int]);
                assert(orig.skip(dropped as int).drop_first() =~= orig.skip(dropped as int + 1));
            }
            dropped = dropped + 1;
        }
        proof {
            if dropped < self.records.len() {
                assert(orig.skip(dropped as int)[0] == orig[dropped as int]);
            }
            assert(expired_prefix(orig, cutoff as int) == dropped as int);
        }
        let mut kept: Vec<Record> = Vec::new();
        let mut k = dropped;
        while k < self.records.len()
            invariant
                dropped <= k <= orig.len(),
                self.records@ == orig,
                kept@ == orig.subrange(dropped as int, k as int),
            decreases orig.len() - k,
        {
            kept.push(self.records[k]);
            proof {
                assert(kept@ =~= orig.subrange(dropped as int, k as int + 1));
            }
            k = k + 1;
        }
        proof {
            assert(kept@ =~= orig.skip(dropped as int));
        }
        self.records = kept;
    }
}

} // verus!
