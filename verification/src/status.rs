//! Hysteresis-gated, dual-rate status reporting of the actuator's value.
//!
//! The reporter never prints anything itself: each tick it decides whether a
//! status line is owed, and the caller hands the line to its logging sink.

use vstd::prelude::*;
use crate::{abs_diff_u32, elapsed_ms};
use crate::smooth_transition::distance;

verus! {

/// Decides when the controller's current value is worth reporting: large
/// jumps are reported at a fast rate, small drift at a slow one, and steady
/// state not at all.
pub struct StatusReporter {
    last_value: u32,
    last_luma: u32,
    last_print: u64,
    base_interval: u64,
    base_threshold: u32,
    fast_interval: u64,
    fast_threshold: u32,
    enabled: bool,
    only_on_change: bool,
}

impl StatusReporter {
    /// The value most recently reported (or tracked while disabled).
    pub closed spec fn last_value(self) -> u32 {
        self.last_value
    }

    /// The adjusted luma most recently recorded, a fraction of
    /// [`crate::SCALE`].
    pub closed spec fn last_luma(self) -> u32 {
        self.last_luma
    }

    /// Timestamp of the last emission, in milliseconds.
    pub closed spec fn last_print(self) -> u64 {
        self.last_print
    }

    /// Reporting interval for small changes, in milliseconds.
    pub closed spec fn base_interval(self) -> u64 {
        self.base_interval
    }

    /// Change that counts as worth reporting at all.
    pub closed spec fn base_threshold(self) -> u32 {
        self.base_threshold
    }

    /// Reporting interval for large jumps, in milliseconds.
    pub closed spec fn fast_interval(self) -> u64 {
        self.fast_interval
    }

    /// Change that switches to the fast reporting interval.
    pub closed spec fn fast_threshold(self) -> u32 {
        self.fast_threshold
    }

    /// Whether reporting is switched on at all.
    pub closed spec fn enabled(self) -> bool {
        self.enabled
    }

    /// Whether a line needs both a change and an expired interval, rather
    /// than either.
    pub closed spec fn only_on_change(self) -> bool {
        self.only_on_change
    }

    /// Whether a tick with value `brightness` at time `now_ms` earns a
    /// status line: the dual-rate hysteresis rule.
    pub open spec fn should_emit_spec(self, brightness: u32, now_ms: u64) -> bool {
        let delta = if brightness >= self.last_value() {
            brightness - self.last_value()
        } else {
            self.last_value() - brightness
        };
        let interval = if delta >= self.fast_threshold() {
            self.fast_interval()
        } else {
            self.base_interval()
        };
        let changed = delta >= self.base_threshold();
        let expired = elapsed_ms(now_ms, self.last_print()) >= interval;
        if self.only_on_change() {
            changed && expired
        } else {
            changed || expired
        }
    }

    /// Creates a reporter seeded with the actuator's starting value. The
    /// last emission is backdated one full interval so the first significant
    /// change is reported promptly; a zero base interval and zero thresholds
    /// are lifted to one, and second-valued intervals saturate when
    /// converted to milliseconds.
    pub fn new(
        initial: u32,
        now_ms: u64,
        interval_secs: u64,
        threshold: u32,
        fast_interval_secs: u64,
        fast_threshold: u32,
        enabled: bool,
        only_on_change: bool,
    ) -> (r: StatusReporter)
        ensures
            r.last_value() == initial,
            r.last_luma() == 0,
            r.base_interval() == secs_to_ms(if interval_secs >= 1 {
                interval_secs
            } else {
                1
            }),
            r.base_threshold() == if threshold >= 1 {
                threshold
            } else {
                1
            },
            r.fast_interval() == secs_to_ms(fast_interval_secs),
            r.fast_threshold() == if fast_threshold >= 1 {
                fast_threshold
            } else {
                1
            },
            r.last_print() == if now_ms >= r.base_interval() {
                now_ms - r.base_interval()
            } else {
                0
            },
            r.enabled() == enabled,
            r.only_on_change() == only_on_change,
    {
        let base_secs: u64 = if interval_secs >= 1 {
            interval_secs
        } else {
            1
        };
        let base_interval = saturating_secs_to_ms(base_secs);
        StatusReporter {
            last_value: initial,
            last_luma: 0,
            last_print: if now_ms >= base_interval {
                now_ms - base_interval
            } else {
                0
            },
            base_interval,
            base_threshold: if threshold >= 1 {
                threshold
            } else {
                1
            },
            fast_interval: saturating_secs_to_ms(fast_interval_secs),
            fast_threshold: if fast_threshold >= 1 {
                fast_threshold
            } else {
                1
            },
            enabled,
            only_on_change,
        }
    }

    /// Observes one tick. Returns whether a status line is owed now; on an
    /// emission the reported value and time are remembered, and while quiet
    /// or disabled only the luma (and, when disabled, the value) is tracked
    /// so that re-enabling produces correct deltas.
    pub fn record(&mut self, brightness: u32, normalized_luma: u32, now_ms: u64) -> (r: bool)
        ensures
            r == (old(self).enabled() && old(self).should_emit_spec(brightness, now_ms)),
            final(self).last_luma() == normalized_luma,
            final(self).last_value() == if r || !old(self).enabled() {
                brightness
            } else {
                old(self).last_value()
            },
            final(self).last_print() == if r {
                now_ms
            } else {
                old(self).last_print()
            },
            final(self).base_interval() == old(self).base_interval(),
            final(self).base_threshold() == old(self).base_threshold(),
            final(self).fast_interval() == old(self).fast_interval(),
            final(self).fast_threshold() == old(self).fast_threshold(),
            final(self).enabled() == old(self).enabled(),
            final(self).only_on_change() == old(self).only_on_change(),
    {
        if !self.enabled {
            self.last_value = brightness;
            self.last_luma = normalized_luma;
            return false;
        }
        let delta = abs_diff_u32(brightness, self.last_value);
        let interval: u64 = if delta >= self.fast_threshold {
            self.fast_interval
        } else {
            self.base_interval
        };
        let changed = delta >= self.base_threshold;
        let since_print: u64 = if now_ms >= self.last_print {
            now_ms - self.last_print
        } else {
            0
        };
        let expired = since_print >= interval;
        let should_log = if self.only_on_change {
            changed && expired
        } else {
            changed || expired
        };
        if should_log {
            self.last_value = brightness;
            self.last_luma = normalized_luma;
            self.last_print = now_ms;
        } else {
            self.last_luma = normalized_luma;
        }
        should_log
    }
}

/// With `only_on_change` set, a change smaller than the base threshold is
/// never reported, no matter how much time has passed.
pub proof fn lemma_small_delta_never_logs(s: StatusReporter, brightness: u32, now_ms: u64)
    requires
        s.only_on_change(),
        distance(brightness as int, s.last_value() as int) < s.base_threshold(),
    ensures
        !s.should_emit_spec(brightness, now_ms),
{
}

/// A change at or above the fast threshold (and the base threshold) is
/// reported as soon as the fast interval has expired, without waiting for
/// the base interval.
pub proof fn lemma_fast_jump_logs_promptly(s: StatusReporter, brightness: u32, now_ms: u64)
    requires
        distance(brightness as int, s.last_value() as int) >= s.fast_threshold(),
        distance(brightness as int, s.last_value() as int) >= s.base_threshold(),
        elapsed_ms(now_ms, s.last_print()) >= s.fast_interval(),
    ensures
        s.should_emit_spec(brightness, now_ms),
{
}

/// Seconds widened to milliseconds, saturating at the largest `u64`.
pub open spec fn secs_to_ms(secs: u64) -> u64 {
    if secs <= u64::MAX / 1000 {
        (secs * 1000) as u64
    } else {
        u64::MAX
    }
}

/// Seconds widened to milliseconds, saturating at the largest `u64`.
pub fn saturating_secs_to_ms(secs: u64) -> (r: u64)
    ensures
        r == secs_to_ms(secs),
{
    if secs <= u64::MAX / 1000 {
        secs * 1000
    } else {
        u64::MAX
    }
}

} // verus!
