//! The animator loop's state and its per-tick decision.
//!
//! Each tick the animator takes whatever the latest-value-wins cell handed
//! it (a fresh sample or "no update"), refreshes its cached sample, advances
//! the cyclic frame index, and decides how long to pause before the next
//! tick. The loop around it — the sleep and the command delivery — lives in
//! the application; everything the loop decides is computed and verified
//! here. The animator never waits for the sampler: a tick with no update
//! still advances the frame, paced by the cached sample.

use crate::frame::{advance_frame, frame_after, frame_in_range, next_frame_index, FRAME_COUNT};
use crate::rate::{delay_ms, delay_of_centi, CpuSample, BASE_DELAY_MS, IDLE_CPU_CENTI};
use vstd::prelude::*;

verus! {

/// What one tick decided: how long to pause, then which frame to show.
#[derive(Clone, Copy, Debug, PartialEq, Eq, Structural)]
pub struct FrameTick {
    /// Milliseconds to pause before emitting the frame-change command.
    pub delay_ms: u64,
    /// The frame index to show after the pause.
    pub frame: usize,
}

/// The animator's whole state: the last sample seen and the current frame.
pub struct AnimatorState {
    /// The most recent sample taken from the cell; the idle sentinel until
    /// the first real measurement arrives.
    pub cached: CpuSample,
    /// The frame index emitted by the previous tick.
    pub frame: usize,
}

/// The cached sample after a tick: the update if one arrived, else the old
/// value kept.
pub open spec fn cached_after(c: CpuSample, update: Option<CpuSample>) -> CpuSample {
    match update {
        Some(v) => v,
        None => c,
    }
}

impl AnimatorState {
    /// The animator holds an addressable frame index.
    pub open spec fn wf(&self) -> bool {
        frame_in_range(self.frame as int)
    }

    /// The initial state: frame `0` and the idle sentinel sample, so the
    /// animation runs at its slowest rate before the first measurement.
    pub fn new() -> (s: AnimatorState)
        ensures
            s.cached.centi == IDLE_CPU_CENTI,
            s.frame == 0,
            s.wf(),
    {
        AnimatorState { cached: CpuSample::idle(), frame: 0 }
    }

    /// One tick of the animator loop: refresh the cache from the update if
    /// any, advance the frame, and pace the next tick from the refreshed
    /// cache. Total — in particular, an absent update never stalls the
    /// advance.
    pub fn tick(&mut self, update: Option<CpuSample>) -> (r: FrameTick)
        ensures
            final(self).cached == cached_after(old(self).cached, update),
            final(self).frame == next_frame_index(old(self).frame as int),
            final(self).wf(),
            r.frame == final(self).frame,
            r.delay_ms == delay_of_centi(final(self).cached.centi as int),
    {
        if let Some(v) = update {
            self.cached = v;
        }
        self.frame = advance_frame(self.frame);
        let d = delay_ms(self.cached);
        FrameTick { delay_ms: d, frame: self.frame }
    }
}

/// Liveness: started with no sampler ever publishing, the animator still
/// advances forever. Every tick keeps the idle sentinel, paces at the 200 ms
/// base delay, and moves the frame one step along the cycle, so after `k`
/// ticks from the initial state the frame index is exactly `k` modulo the
/// frame count.
pub proof fn lemma_animator_liveness(k: nat)
    ensures
        cached_after((CpuSample { centi: IDLE_CPU_CENTI }), None) == (CpuSample {
            centi: IDLE_CPU_CENTI,
        }),
        delay_of_centi(IDLE_CPU_CENTI as int) == BASE_DELAY_MS,
        frame_after(0, k) == (k as int) % (FRAME_COUNT as int),
{
    crate::frame::lemma_frame_cycle(0, k);
    assert(crate::rate::clamped_centi(IDLE_CPU_CENTI as int) == 500);
    assert(delay_of_centi(IDLE_CPU_CENTI as int) == (2 * 200 * 500 + 500int) / (2 * 500int));
}

} // verus!
