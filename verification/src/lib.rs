//! Adaptive backlight control engine: turns ambient light readings from a
//! camera into rate-limited display brightness adjustments.
//!
//! Brightness fractions (luma, smoothing factors, circadian multipliers) are
//! carried as fixed-point values scaled by one million, so the whole signal
//! chain is exact integer arithmetic.

pub mod config;
pub mod estimator;
pub mod pipeline;
pub mod scheduler;
pub mod smooth_transition;
pub mod smoothing;
pub mod status;
pub mod throttle;
pub mod time_adjust;

use vstd::prelude::*;

verus! {

/// Scale of all fixed-point fractions: one million units represent 1.0.
pub const SCALE: u32 = 1_000_000;

/// Milliseconds elapsed from `since` to `now`, zero when the clock has not
/// reached `since`.
pub open spec fn elapsed_ms(now: u64, since: u64) -> int {
    if now >= since {
        now - since
    } else {
        0
    }
}

/// Absolute difference of two `u32` values.
pub fn abs_diff_u32(a: u32, b: u32) -> (r: u32)
    ensures
        r == if a >= b { a - b } else { b - a },
{
    if a >= b {
        a - b
    } else {
        b - a
    }
}

} // verus!
