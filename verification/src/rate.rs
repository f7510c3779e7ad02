//! CPU samples and the mapping from a sample to a frame delay.
//!
//! A CPU utilization sample is a percentage carried in hundredths of a
//! percent, so the mapping is exact integer arithmetic. The mapping scales
//! the percentage by one fifth, clamps the resulting speed multiplier to
//! `[1, 20]`, and divides the 200 ms base frame duration by it, rounding to
//! the nearest millisecond. Equivalently, with the percentage itself clamped
//! to `[5 %, 100 %]`, the delay is `100000 / centi_percent` rounded half up:
//! 200 ms at 5 % CPU or below, down to 10 ms at 100 % CPU or above.

use vstd::arithmetic::div_mod::{
    lemma_div_is_ordered, lemma_div_multiples_vanish, lemma_fundamental_div_mod,
};
use vstd::prelude::*;

verus! {

/// Hundredths of a percent in one percent.
pub const CENTI_PER_PERCENT: u32 = 100;

/// A CPU percentage at or below this (in hundredths of a percent, 5 %) maps
/// to the slowest playback: one frame per base delay.
pub const SLOWEST_CPU_CENTI: u32 = 500;

/// A CPU percentage at or above this (in hundredths of a percent, 100 %)
/// maps to the fastest playback: the speed multiplier saturates at 20.
pub const FASTEST_CPU_CENTI: u32 = 10000;

/// Base frame duration in milliseconds, the delay at the slowest playback.
pub const BASE_DELAY_MS: u64 = 200;

/// Delay in milliseconds at the fastest playback.
pub const MIN_DELAY_MS: u64 = 10;

/// The sentinel sample cached before any measurement arrives: 1 %, which
/// maps to the slowest playback rate.
pub const IDLE_CPU_CENTI: u32 = 100;

/// A single CPU utilization measurement, in hundredths of a percent.
///
/// Values may exceed 100 % transiently; the rate mapping clamps on its own,
/// so a sample is stored unclamped.
#[derive(Clone, Copy, Debug, PartialEq, Eq, Structural)]
pub struct CpuSample {
    /// CPU utilization in hundredths of a percent.
    pub centi: u32,
}

impl CpuSample {
    /// A sample of `centi` hundredths of a percent.
    pub fn new(centi: u32) -> (s: CpuSample)
        ensures
            s.centi == centi,
    {
        CpuSample { centi }
    }

    /// The sentinel sample assumed before the first measurement.
    pub fn idle() -> (s: CpuSample)
        ensures
            s.centi == IDLE_CPU_CENTI,
    {
        CpuSample { centi: IDLE_CPU_CENTI }
    }
}

/// The sample's percentage clamped to the band that drives playback speed.
pub open spec fn clamped_centi(c: int) -> int {
    if c < SLOWEST_CPU_CENTI {
        SLOWEST_CPU_CENTI as int
    } else if c > FASTEST_CPU_CENTI {
        FASTEST_CPU_CENTI as int
    } else {
        c
    }
}

/// The frame delay in milliseconds for a sample of `c` hundredths of a
/// percent: the base delay divided by the clamped speed multiplier `c / 500`,
/// rounded to the nearest millisecond (half rounds up). Written over
/// integers: `round(100000 / clamped) == (200000 + clamped) / (2 * clamped)`.
pub open spec fn delay_of_centi(c: int) -> int {
    (2 * BASE_DELAY_MS * SLOWEST_CPU_CENTI + clamped_centi(c)) / (2 * clamped_centi(c))
}

/// Maps the latest CPU sample to the delay before the next frame advance.
pub fn delay_ms(sample: CpuSample) -> (d: u64)
    ensures
        d == delay_of_centi(sample.centi as int),
        MIN_DELAY_MS <= d <= BASE_DELAY_MS,
{
    let c: u64 = if sample.centi < SLOWEST_CPU_CENTI {
        SLOWEST_CPU_CENTI as u64
    } else if sample.centi > FASTEST_CPU_CENTI {
        FASTEST_CPU_CENTI as u64
    } else {
        sample.centi as u64
    };
    proof {
        lemma_delay_in_range(sample.centi as int);
    }
    (200000 + c) / (2 * c)
}

/// Helper: the two-sided bound that pins the quotient of the delay division.
proof fn lemma_delay_quotient_bounds(cc: int)
    requires
        SLOWEST_CPU_CENTI <= cc <= FASTEST_CPU_CENTI,
    ensures
        MIN_DELAY_MS <= (200000 + cc) / (2 * cc) <= BASE_DELAY_MS,
{
    let q = (200000 + cc) / (2 * cc);
    let r = (200000 + cc) % (2 * cc);
    lemma_fundamental_div_mod(200000 + cc, 2 * cc);
    assert(200000 + cc == 2 * cc * q + r);
    assert(0 <= r < 2 * cc);
    assert(q >= 10) by (nonlinear_arith)
        requires
            500 <= cc <= 10000,
            200000 + cc == 2 * cc * q + r,
            0 <= r < 2 * cc,
    ;
    assert(q <= 200) by (nonlinear_arith)
        requires
            500 <= cc <= 10000,
            200000 + cc == 2 * cc * q + r,
            0 <= r < 2 * cc,
    ;
}

/// Every sample, however small or large, maps to a delay in the closed band
/// from the fastest to the slowest frame duration: 10 ms to 200 ms.
pub proof fn lemma_delay_in_range(c: int)
    ensures
        MIN_DELAY_MS <= delay_of_centi(c) <= BASE_DELAY_MS,
{
    lemma_delay_quotient_bounds(clamped_centi(c));
}

/// The delay never grows as CPU utilization grows: a busier host always
/// animates at least as fast.
pub proof fn lemma_delay_monotonic(a: int, b: int)
    requires
        a <= b,
    ensures
        delay_of_centi(a) >= delay_of_centi(b),
{
    let ca = clamped_centi(a);
    let cb = clamped_centi(b);
    assert(SLOWEST_CPU_CENTI <= ca <= cb <= FASTEST_CPU_CENTI);
    let qb = (200000 + cb) / (2 * cb);
    let rb = (200000 + cb) % (2 * cb);
    lemma_fundamental_div_mod(200000 + cb, 2 * cb);
    lemma_delay_quotient_bounds(cb);
    assert(2 * ca * qb <= 200000 + ca) by (nonlinear_arith)
        requires
            500 <= ca <= cb,
            qb >= 10,
            200000 + cb == 2 * cb * qb + rb,
            0 <= rb,
    ;
    lemma_div_multiples_vanish(qb, 2 * ca);
    lemma_div_is_ordered(2 * ca * qb, 200000 + ca, 2 * ca);
    assert((200000 + ca) / (2 * ca) >= qb);
}

} // verus!
