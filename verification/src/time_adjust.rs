//! Circadian adjustment: a time-of-day multiplier applied to the smoothed
//! ambient signal, so the display feels brighter during the day and softer
//! at night. The day window may wrap midnight.

use vstd::prelude::*;
use chrono::Timelike;
use crate::SCALE;
use crate::config::Config;

verus! {

/// Relies on chrono's `Local::now` and `Timelike::hour`: the local
/// wall-clock hour of day, which chrono documents as `0..=23`.
#[verifier::external_body]
pub(crate) fn local_hour() -> (r: u8)
    ensures
        r < 24,
{
    chrono::Local::now().hour() as u8
}

/// Stateless time-of-day multiplier over normalized ambient readings.
/// Multipliers are fixed-point fractions of [`SCALE`] and may exceed one.
#[derive(Clone, Debug)]
pub struct TimeAdjuster {
    day_multiplier: u32,
    night_multiplier: u32,
    day_start_hour: u8,
    night_start_hour: u8,
}

impl TimeAdjuster {
    /// Multiplier applied during the day window.
    pub closed spec fn day_multiplier(self) -> u32 {
        self.day_multiplier
    }

    /// Multiplier applied during the night window.
    pub closed spec fn night_multiplier(self) -> u32 {
        self.night_multiplier
    }

    /// First hour of the day window.
    pub closed spec fn day_start_hour(self) -> u8 {
        self.day_start_hour
    }

    /// First hour of the night window.
    pub closed spec fn night_start_hour(self) -> u8 {
        self.night_start_hour
    }

    /// Whether `hour` falls in the day window. When the window's start lies
    /// after the night's start, the day spans midnight.
    pub open spec fn is_day_spec(self, hour: u8) -> bool {
        if self.day_start_hour() <= self.night_start_hour() {
            self.day_start_hour() <= hour < self.night_start_hour()
        } else {
            hour >= self.day_start_hour() || hour < self.night_start_hour()
        }
    }

    /// The multiplier selected for `hour`.
    pub open spec fn factor_for_spec(self, hour: u8) -> u32 {
        if self.is_day_spec(hour) {
            self.day_multiplier()
        } else {
            self.night_multiplier()
        }
    }

    /// The adjusted signal for `hour`: `clamp(luma * factor, 0, SCALE)` in
    /// fixed-point units.
    pub open spec fn adjusted_spec(self, luma: u32, hour: u8) -> int {
        let scaled = (luma * self.factor_for_spec(hour)) as int / (SCALE as int);
        if scaled > SCALE {
            SCALE as int
        } else {
            scaled
        }
    }

    /// Builds the adjuster from validated configuration.
    pub fn from_config(cfg: &Config) -> (r: TimeAdjuster)
        ensures
            r.day_multiplier() == cfg.circadian_day_multiplier,
            r.night_multiplier() == cfg.circadian_night_multiplier,
            r.day_start_hour() == cfg.circadian_day_start_hour,
            r.night_start_hour() == cfg.circadian_night_start_hour,
    {
        TimeAdjuster {
            day_multiplier: cfg.circadian_day_multiplier,
            night_multiplier: cfg.circadian_night_multiplier,
            day_start_hour: cfg.circadian_day_start_hour,
            night_start_hour: cfg.circadian_night_start_hour,
        }
    }

    /// Whether `hour` falls in the day window.
    pub fn is_day(&self, hour: u8) -> (r: bool)
        ensures
            r == self.is_day_spec(hour),
    {
        if self.day_start_hour <= self.night_start_hour {
            hour >= self.day_start_hour && hour < self.night_start_hour
        } else {
            hour >= self.day_start_hour || hour < self.night_start_hour
        }
    }

    /// The multiplier selected for `hour`.
    pub fn factor_for(&self, hour: u8) -> (r: u32)
        ensures
            r == self.factor_for_spec(hour),
    {
        if self.is_day(hour) {
            self.day_multiplier
        } else {
            self.night_multiplier
        }
    }

    /// The multiplier for the wall-clock hour right now: always the day or
    /// the night multiplier, whichever the current hour selects.
    pub fn factor_now(&self) -> (r: u32)
        ensures
            exists|h: u8| h < 24 && r == self.factor_for_spec(h),
    {
        let hour = local_hour();
        let r = self.factor_for(hour);
        proof {
            assert(hour < 24 && r == self.factor_for_spec(hour));
        }
        r
    }

    /// Scales `normalized_luma` by `factor` (a fraction of [`SCALE`]) and
    /// clamps the result back into `[0, SCALE]`.
    pub fn adjust_for_hour(&self, normalized_luma: u32, hour: u8) -> (r: u32)
        requires
            normalized_luma <= SCALE,
        ensures
            r == self.adjusted_spec(normalized_luma, hour),
            r <= SCALE,
    {
        let factor = self.factor_for(hour);
        proof {
            assert(normalized_luma * factor <= SCALE * factor) by (nonlinear_arith)
                requires
                    normalized_luma <= SCALE,
            ;
            assert((SCALE * factor) as int / (SCALE as int) == factor) by (nonlinear_arith);
            assert((normalized_luma * factor) as int / (SCALE as int) <= (SCALE * factor) as int
                / (SCALE as int)) by (nonlinear_arith)
                requires
                    normalized_luma * factor <= SCALE * factor,
            ;
        }
        let scaled: u64 = (normalized_luma as u64) * (factor as u64) / (SCALE as u64);
        if scaled > SCALE as u64 {
            SCALE
        } else {
            scaled as u32
        }
    }

    /// Scales `normalized_luma` by the multiplier the current wall-clock
    /// hour selects, clamped back into `[0, SCALE]`.
    pub fn adjust(&self, normalized_luma: u32) -> (r: u32)
        requires
            normalized_luma <= SCALE,
        ensures
            exists|h: u8| h < 24 && r == self.adjusted_spec(normalized_luma, h),
            r <= SCALE,
    {
        let hour = local_hour();
        let r = self.adjust_for_hour(normalized_luma, hour);
        proof {
            assert(hour < 24 && r == self.adjusted_spec(normalized_luma, hour));
        }
        r
    }
}

impl Default for TimeAdjuster {
    /// A mild boost during the day and a mild dim at night.
    fn default() -> (r: Self)
        ensures
            r.day_multiplier() == 1_050_000u32,
            r.night_multiplier() == 950_000u32,
            r.day_start_hour() == 7u8,
            r.night_start_hour() == 20u8,
    {
        TimeAdjuster {
            day_multiplier: 1_050_000,
            night_multiplier: 950_000,
            day_start_hour: 7,
            night_start_hour: 20,
        }
    }
}

} // verus!
