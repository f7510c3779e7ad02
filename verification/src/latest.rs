//! The single-slot, latest-value-wins handoff between sampler and animator.
//!
//! The sampler publishes into the slot without blocking; a publish before
//! the previous value was read simply overwrites it, nothing is queued. The
//! animator reads without blocking; a read takes the pending value if one is
//! there and reports "no update" otherwise, never waiting. The application
//! shares one cell between the two loops behind a mutex; every state change
//! of the cell itself is decided and verified here.

use crate::rate::CpuSample;
use vstd::prelude::*;

verus! {

/// A one-value slot where the newest published sample overwrites any unread
/// predecessor.
pub struct LatestCell {
    slot: Option<CpuSample>,
}

/// The slot after a publish: the new value, whatever was pending before.
pub open spec fn slot_after_publish(s: Option<CpuSample>, v: CpuSample) -> Option<CpuSample> {
    Some(v)
}

/// What a non-blocking read hands back: the pending value if any, else
/// "no update".
pub open spec fn read_outcome(s: Option<CpuSample>) -> Option<CpuSample> {
    s
}

/// The slot after a read: empty, whether or not a value was taken.
pub open spec fn slot_after_read(s: Option<CpuSample>) -> Option<CpuSample> {
    None
}

impl LatestCell {
    /// The sample now pending in the slot, if any.
    pub closed spec fn pending(&self) -> Option<CpuSample> {
        self.slot
    }

    /// An empty cell: nothing published yet.
    pub fn new() -> (c: LatestCell)
        ensures
            c.pending() == None::<CpuSample>,
    {
        LatestCell { slot: None }
    }

    /// Publishes a sample, overwriting any unread one. Never blocks and
    /// never queues: only the newest value stays.
    pub fn publish(&mut self, v: CpuSample)
        ensures
            final(self).pending() == slot_after_publish(old(self).pending(), v),
    {
        self.slot = Some(v);
    }

    /// Takes the pending sample if one is there; reports `None` ("no
    /// update") otherwise. Never blocks.
    pub fn try_read(&mut self) -> (r: Option<CpuSample>)
        ensures
            r == read_outcome(old(self).pending()),
            final(self).pending() == slot_after_read(old(self).pending()),
    {
        let r = self.slot;
        self.slot = None;
        r
    }
}

/// Latest value wins: two publishes before a single read leave exactly the
/// second value to be read, never the first and never both.
pub proof fn lemma_latest_value_wins(s: Option<CpuSample>, a: CpuSample, b: CpuSample)
    ensures
        read_outcome(slot_after_publish(slot_after_publish(s, a), b)) == Some(b),
        a != b ==> read_outcome(slot_after_publish(slot_after_publish(s, a), b)) != Some(a),
{
}

/// No-update idempotence: with nothing pending, a read reports "no update",
/// and so does a second read with no publish in between.
pub proof fn lemma_no_update_idempotent(s: Option<CpuSample>)
    requires
        s == None::<CpuSample>,
    ensures
        read_outcome(s) == None::<CpuSample>,
        read_outcome(slot_after_read(s)) == None::<CpuSample>,
{
}

} // verus!
