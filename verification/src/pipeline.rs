//! The per-tick signal conditioning chain: range-normalization of a raw
//! ambient reading, the circadian multiplier, the dead-band gate, and the
//! mapping into calibrated hardware units.
//!
//! All fractions are fixed-point values of [`SCALE`].

use vstd::prelude::*;
use crate::SCALE;
use crate::time_adjust::TimeAdjuster;

verus! {

/// Linear rescaling of `raw` into `[0, SCALE]` by the calibration bounds;
/// `raw` passes through unchanged when either bound is missing or the
/// bounds are not strictly increasing.
pub open spec fn normalize_spec(min_luma: Option<u32>, max_luma: Option<u32>, raw: u32) -> int {
    if min_luma is Some && max_luma is Some && max_luma.unwrap() > min_luma.unwrap() {
        let lo = min_luma.unwrap();
        let hi = max_luma.unwrap();
        if raw <= lo {
            0
        } else {
            let scaled = (raw - lo) * SCALE / ((hi - lo) as int);
            if scaled > SCALE {
                SCALE as int
            } else {
                scaled
            }
        }
    } else {
        raw as int
    }
}

/// Rescales a raw ambient reading by the calibration bounds, clamping into
/// `[0, SCALE]`; without usable bounds the reading passes through
/// unchanged.
pub fn normalize_luma(min_luma: Option<u32>, max_luma: Option<u32>, raw: u32) -> (r: u32)
    ensures
        r == normalize_spec(min_luma, max_luma, raw),
        raw <= SCALE ==> r <= SCALE,
{
    if let (Some(lo), Some(hi)) = (min_luma, max_luma) {
        if hi > lo {
            if raw <= lo {
                return 0;
            }
            let span: u32 = hi - lo;
            proof {
                assert((raw - lo) * SCALE <= u32::MAX * SCALE) by (nonlinear_arith)
                    requires
                        raw - lo <= u32::MAX,
                ;
            }
            let scaled: u64 = ((raw - lo) as u64) * (SCALE as u64) / (span as u64);
            return if scaled > SCALE as u64 {
                SCALE
            } else {
                scaled as u32
            };
        }
    }
    raw
}

/// What [`apply_circadian`] yields at a given hour: the circadian-scaled
/// signal when enabled, the smoothed signal unchanged otherwise.
pub open spec fn circadian_applied_spec(
    enabled: bool,
    circadian: TimeAdjuster,
    smoothed: u32,
    hour: u8,
) -> int {
    if enabled {
        circadian.adjusted_spec(smoothed, hour)
    } else {
        smoothed as int
    }
}

/// Applies the circadian multiplier for a known hour when enabled;
/// otherwise the smoothed signal passes through unchanged.
pub fn apply_circadian_at(
    enabled: bool,
    circadian: &TimeAdjuster,
    smoothed: u32,
    hour: u8,
) -> (r: u32)
    requires
        smoothed <= SCALE,
    ensures
        r == circadian_applied_spec(enabled, *circadian, smoothed, hour),
        r <= SCALE,
{
    if enabled {
        circadian.adjust_for_hour(smoothed, hour)
    } else {
        smoothed
    }
}

/// Applies the circadian multiplier for the current wall-clock hour when it
/// is enabled; otherwise the smoothed signal passes through unchanged.
pub fn apply_circadian(enabled: bool, circadian: &TimeAdjuster, smoothed: u32) -> (r: u32)
    requires
        smoothed <= SCALE,
    ensures
        r <= SCALE,
        exists|h: u8|
            h < 24 && r == circadian_applied_spec(enabled, *circadian, smoothed, h),
        !enabled ==> r == smoothed,
{
    if enabled {
        let r = circadian.adjust(smoothed);
        proof {
            let h = choose|h: u8| h < 24 && r == circadian.adjusted_spec(smoothed, h);
            assert(h < 24 && r == circadian_applied_spec(enabled, *circadian, smoothed, h));
        }
        r
    } else {
        proof {
            assert(0u8 < 24 && smoothed == circadian_applied_spec(
                enabled,
                *circadian,
                smoothed,
                0u8,
            ));
        }
        smoothed
    }
}

/// The adjusted signal mapped into hardware units:
/// `round(adjusted * (real_max - real_min) / SCALE) + real_min`, clamped to
/// the calibrated range and then to the device's absolute ceiling.
pub open spec fn map_to_hardware_spec(
    adjusted: u32,
    real_min: u32,
    real_max: u32,
    hardware_max: u32,
) -> int {
    let range = real_max - real_min;
    let mapped = real_min + (adjusted * range + SCALE / 2) / (SCALE as int);
    let clamped = if mapped > real_max {
        real_max as int
    } else if mapped < real_min {
        real_min as int
    } else {
        mapped
    };
    if clamped > hardware_max {
        hardware_max as int
    } else {
        clamped
    }
}

/// A fraction of a range, rounded, never exceeds the range.
proof fn lemma_scaled_fraction_bound(adjusted: int, range: int)
    requires
        0 <= adjusted <= SCALE,
        0 <= range,
    ensures
        0 <= (adjusted * range + SCALE / 2) / (SCALE as int) <= range,
{
    assert(adjusted * range + SCALE / 2 < SCALE * (range + 1)) by (nonlinear_arith)
        requires
            0 <= adjusted <= SCALE,
            0 <= range,
    ;
    assert(0 <= (adjusted * range + SCALE / 2) / (SCALE as int) <= range) by (nonlinear_arith)
        requires
            0 <= adjusted * range + SCALE / 2 < SCALE * (range + 1),
    ;
}

/// The dead-band gate and hardware mapping. Suppresses a new target when a
/// previous adjusted value exists and the new one moved less than
/// `min_luma_delta`; otherwise maps the adjusted signal into hardware
/// units. Either way the adjusted value is recorded for the next
/// comparison.
pub fn update_brightness(
    adjusted: u32,
    has_luma: &mut bool,
    last_adjusted_luma: &mut u32,
    min_luma_delta: u32,
    real_min: u32,
    real_max: u32,
    hardware_max: u32,
) -> (r: Option<u32>)
    requires
        adjusted <= SCALE,
        real_min < real_max,
    ensures
        *final(last_adjusted_luma) == adjusted,
        *final(has_luma),
        r is None <==> *old(has_luma) && (if adjusted >= *old(last_adjusted_luma) {
            adjusted - *old(last_adjusted_luma)
        } else {
            *old(last_adjusted_luma) - adjusted
        }) < min_luma_delta,
        r is Some ==> r == Some(
            map_to_hardware_spec(adjusted, real_min, real_max, hardware_max) as u32,
        ),
{
    if *has_luma {
        let luma_delta: u32 = if adjusted >= *last_adjusted_luma {
            adjusted - *last_adjusted_luma
        } else {
            *last_adjusted_luma - adjusted
        };
        if luma_delta < min_luma_delta {
            *last_adjusted_luma = adjusted;
            return None;
        }
    }
    *has_luma = true;
    *last_adjusted_luma = adjusted;
    let range: u32 = real_max - real_min;
    proof {
        lemma_scaled_fraction_bound(adjusted as int, range as int);
    }
    let mapped: u32 = real_min + (((adjusted as u64) * (range as u64) + (SCALE / 2) as u64) / (
    SCALE as u64)) as u32;
    let clamped: u32 = if mapped > real_max {
        real_max
    } else if mapped < real_min {
        real_min
    } else {
        mapped
    };
    let capped: u32 = if clamped > hardware_max {
        hardware_max
    } else {
        clamped
    };
    Some(capped)
}

/// The mapped target always respects the hardware ceiling, never exceeds
/// the calibrated maximum, and reaches the calibrated minimum only when the
/// ceiling itself lies below it.
pub proof fn lemma_hardware_clamp(adjusted: u32, real_min: u32, real_max: u32, hardware_max: u32)
    requires
        adjusted <= SCALE,
        real_min < real_max,
    ensures
        map_to_hardware_spec(adjusted, real_min, real_max, hardware_max) <= hardware_max,
        map_to_hardware_spec(adjusted, real_min, real_max, hardware_max) <= real_max,
        hardware_max >= real_min ==> map_to_hardware_spec(adjusted, real_min, real_max,
            hardware_max) >= real_min,
{
    lemma_scaled_fraction_bound(adjusted as int, (real_max - real_min) as int);
}

} // verus!
