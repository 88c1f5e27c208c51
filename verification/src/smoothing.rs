//! Exponential smoothing of the normalized ambient signal.
//!
//! `Ema` is a single-value recursive low-pass filter. The first sample seeds
//! the filter directly; every later sample is blended with the running value
//! as `alpha * x + (1 - alpha) * value`, in fixed-point units of [`SCALE`].

use vstd::prelude::*;
use crate::SCALE;

verus! {

/// The exponential blend of a new sample `x` into the running value `prev`,
/// with weight `alpha` out of [`SCALE`], truncated to fixed-point units.
pub open spec fn ema_blend(alpha: int, prev: int, x: int) -> int {
    (alpha * x + (SCALE - alpha) * prev) / (SCALE as int)
}

/// A blend of two fractions with a fractional weight is again a fraction.
pub proof fn lemma_ema_blend_in_range(alpha: int, prev: int, x: int)
    requires
        0 <= alpha <= SCALE,
        0 <= prev <= SCALE,
        0 <= x <= SCALE,
    ensures
        0 <= ema_blend(alpha, prev, x) <= SCALE,
{
    assert(0 <= alpha * x + (SCALE - alpha) * prev <= SCALE * SCALE) by (nonlinear_arith)
        requires
            0 <= alpha <= SCALE,
            0 <= prev <= SCALE,
            0 <= x <= SCALE,
    ;
    assert(0 <= (alpha * x + (SCALE - alpha) * prev) / (SCALE as int) <= SCALE) by (nonlinear_arith)
        requires
            0 <= alpha * x + (SCALE - alpha) * prev <= SCALE * SCALE,
    ;
}

/// Exponential moving average over fixed-point fractions of [`SCALE`].
pub struct Ema {
    alpha: u32,
    value: u32,
    init: bool,
}

impl Ema {
    /// The smoothing weight, a fraction of [`SCALE`].
    pub closed spec fn alpha(self) -> u32 {
        self.alpha
    }

    /// The running smoothed value, a fraction of [`SCALE`].
    pub closed spec fn value(self) -> u32 {
        self.value
    }

    /// Whether a first sample has seeded the filter.
    pub closed spec fn initialized(self) -> bool {
        self.init
    }

    /// The filter's representation invariant: weight and value are fractions.
    pub open spec fn wf(self) -> bool {
        self.alpha() <= SCALE && self.value() <= SCALE
    }

    /// Creates a filter with the given weight, clamped into `[0, SCALE]`.
    pub fn new(alpha: u32) -> (r: Ema)
        ensures
            r.wf(),
            r.alpha() == if alpha <= SCALE { alpha } else { SCALE },
            r.value() == 0,
            !r.initialized(),
    {
        Ema {
            alpha: if alpha <= SCALE { alpha } else { SCALE },
            value: 0,
            init: false,
        }
    }

    /// Feeds one sample: the first sample is returned unchanged, every later
    /// one is blended with the running value.
    pub fn update(&mut self, x: u32) -> (r: u32)
        requires
            old(self).wf(),
            x <= SCALE,
        ensures
            final(self).wf(),
            final(self).alpha() == old(self).alpha(),
            final(self).initialized(),
            r == final(self).value(),
            !old(self).initialized() ==> r == x,
            old(self).initialized() ==> r == ema_blend(
                old(self).alpha() as int,
                old(self).value() as int,
                x as int,
            ),
            r <= SCALE,
    {
        if !self.init {
            self.value = x;
            self.init = true;
        } else {
            proof {
                assert(self.alpha * x <= SCALE * SCALE) by (nonlinear_arith)
                    requires
                        self.alpha <= SCALE,
                        x <= SCALE,
                ;
                assert((SCALE - self.alpha) * self.value <= SCALE * SCALE) by (nonlinear_arith)
                    requires
                        self.alpha <= SCALE,
                        self.value <= SCALE,
                ;
                lemma_ema_blend_in_range(
                    self.alpha as int,
                    self.value as int,
                    x as int,
                );
            }
            let blended: u64 = (self.alpha as u64) * (x as u64)
                + ((SCALE - self.alpha) as u64) * (self.value as u64);
            self.value = (blended / (SCALE as u64)) as u32;
        }
        self.value
    }
}

} // verus!
