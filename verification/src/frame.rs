//! The cyclic animation frame index.
//!
//! An icon set holds `FRAME_COUNT` frames, indexed `0 ..= MAX_RUN_ICON_INDEX`.
//! The animator advances the index by one each tick and wraps back to `0`
//! after the last frame, so repeated advancement from `0` walks the clean
//! cycle `1, 2, 3, 4, 0, 1, ...` with no index skipped or repeated.

use vstd::prelude::*;

verus! {

/// Highest valid frame index of an icon set.
pub const MAX_RUN_ICON_INDEX: usize = 4;

/// Number of frames in an icon set.
pub const FRAME_COUNT: usize = 5;

/// A frame index that can address a frame of an icon set.
pub open spec fn frame_in_range(i: int) -> bool {
    0 <= i <= MAX_RUN_ICON_INDEX
}

/// The frame index shown after one advancement from `i`: the successor,
/// wrapping to `0` past the last frame.
pub open spec fn next_frame_index(i: int) -> int {
    if i >= MAX_RUN_ICON_INDEX {
        0
    } else {
        i + 1
    }
}

/// The frame index reached from `start` after `k` advancements.
pub open spec fn frame_after(start: int, k: nat) -> int
    decreases k,
{
    if k == 0 {
        start
    } else {
        next_frame_index(frame_after(start, (k - 1) as nat))
    }
}

/// Advances a frame index by one step of the animation cycle.
pub fn advance_frame(i: usize) -> (n: usize)
    ensures
        n == next_frame_index(i as int),
        frame_in_range(n as int),
{
    if i >= MAX_RUN_ICON_INDEX {
        0
    } else {
        i + 1
    }
}

/// Advancement is the successor modulo the frame count: within the cycle no
/// value is skipped, and the wrap lands exactly on `0`.
pub proof fn lemma_frame_cycle_step(i: int)
    requires
        frame_in_range(i),
    ensures
        next_frame_index(i) == (i + 1) % (FRAME_COUNT as int),
        frame_in_range(next_frame_index(i)),
{
}

/// Distinct in-range indices advance to distinct indices: the cycle never
/// repeats a frame before the wrap.
pub proof fn lemma_frame_cycle_no_repeat(a: int, b: int)
    requires
        frame_in_range(a),
        frame_in_range(b),
        a != b,
    ensures
        next_frame_index(a) != next_frame_index(b),
{
}

/// Repeated advancement from an in-range start walks the cycle exactly:
/// after `k` steps the index is `(start + k)` modulo the frame count. From
/// `0` this is the sequence `1, 2, 3, 4, 0, 1, 2, ...`.
pub proof fn lemma_frame_cycle(start: int, k: nat)
    requires
        frame_in_range(start),
    ensures
        frame_after(start, k) == (start + k) % (FRAME_COUNT as int),
    decreases k,
{
    if k > 0 {
        lemma_frame_cycle(start, (k - 1) as nat);
    }
}

} // verus!
