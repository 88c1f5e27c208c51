//! The control loop's per-tick decisions: when to capture, what a captured
//! frame does to the actuator target, when status and fault reports are
//! owed, what to write to hardware, and how long to sleep.
//!
//! The surrounding program owns the clock, the camera and the backlight
//! device: it hands every decision the current monotonic time in
//! milliseconds and performs the reads, writes and sleeps that the
//! decisions call for.

use vstd::prelude::*;
use crate::SCALE;
use crate::elapsed_ms;
use crate::config::Config;
use crate::pipeline::{
    apply_circadian_at,
    circadian_applied_spec,
    map_to_hardware_spec,
    normalize_luma,
    normalize_spec,
    update_brightness,
};
use crate::smooth_transition::{distance, step_toward, SmoothTransition};
use crate::smoothing::{ema_blend, Ema};
use crate::status::{secs_to_ms, saturating_secs_to_ms, StatusReporter};
use crate::throttle::ErrorThrottle;
use crate::time_adjust::{local_hour, TimeAdjuster};

verus! {

/// Ceiling on an idle tick's sleep, bounding cancellation latency, in
/// milliseconds.
pub const MAX_IDLE_SLEEP_MS: u64 = 10;

/// Whether a bounded phase that began at `start_ms` has used up its limit.
pub fn duration_expired(start_ms: u64, now_ms: u64, limit_ms: Option<u64>) -> (r: bool)
    ensures
        r == (limit_ms is Some && elapsed_ms(now_ms, start_ms) >= limit_ms.unwrap()),
{
    match limit_ms {
        None => false,
        Some(limit) => {
            let elapsed: u64 = if now_ms >= start_ms {
                now_ms - start_ms
            } else {
                0
            };
            elapsed >= limit
        },
    }
}

/// All state the control loop mutates from tick to tick, together with the
/// validated settings it reads.
pub struct ControlLoop {
    ema: Ema,
    transition: SmoothTransition,
    status: StatusReporter,
    throttle: ErrorThrottle,
    circadian: TimeAdjuster,
    has_luma: bool,
    last_adjusted_luma: u32,
    last_capture: u64,
    capture_interval: u64,
    camera_min_luma: Option<u32>,
    camera_max_luma: Option<u32>,
    enable_circadian: bool,
    min_luma_delta: u32,
    real_min: u32,
    real_max: u32,
    hardware_max: u32,
}

impl ControlLoop {
    /// The exponential smoother.
    pub closed spec fn ema(self) -> Ema {
        self.ema
    }

    /// The rate-limited actuator.
    pub closed spec fn transition(self) -> SmoothTransition {
        self.transition
    }

    /// The status reporting gate.
    pub closed spec fn status(self) -> StatusReporter {
        self.status
    }

    /// The capture-fault throttle.
    pub closed spec fn throttle(self) -> ErrorThrottle {
        self.throttle
    }

    /// The circadian adjuster.
    pub closed spec fn circadian(self) -> TimeAdjuster {
        self.circadian
    }

    /// Whether an adjusted value from an earlier tick exists for the
    /// dead-band comparison.
    pub closed spec fn has_luma(self) -> bool {
        self.has_luma
    }

    /// The adjusted value recorded on the last capture tick.
    pub closed spec fn last_adjusted_luma(self) -> u32 {
        self.last_adjusted_luma
    }

    /// When the last capture was made (or deemed made), in milliseconds.
    pub closed spec fn last_capture(self) -> u64 {
        self.last_capture
    }

    /// Milliseconds between captures.
    pub closed spec fn capture_interval(self) -> u64 {
        self.capture_interval
    }

    /// Lower calibration bound for raw readings, if calibrated.
    pub closed spec fn camera_min_luma(self) -> Option<u32> {
        self.camera_min_luma
    }

    /// Upper calibration bound for raw readings, if calibrated.
    pub closed spec fn camera_max_luma(self) -> Option<u32> {
        self.camera_max_luma
    }

    /// Whether the circadian multiplier is applied at all.
    pub closed spec fn enable_circadian(self) -> bool {
        self.enable_circadian
    }

    /// The dead-band: adjusted values closer than this to the previous one
    /// produce no new target.
    pub closed spec fn min_luma_delta(self) -> u32 {
        self.min_luma_delta
    }

    /// The calibrated lower brightness bound.
    pub closed spec fn real_min(self) -> u32 {
        self.real_min
    }

    /// The calibrated upper brightness bound.
    pub closed spec fn real_max(self) -> u32 {
        self.real_max
    }

    /// The device's absolute brightness ceiling.
    pub closed spec fn hardware_max(self) -> u32 {
        self.hardware_max
    }

    /// The loop's representation invariant.
    pub open spec fn wf(self) -> bool {
        &&& self.ema().wf()
        &&& self.transition().wf()
        &&& self.real_min() < self.real_max()
        &&& self.last_adjusted_luma() <= SCALE
    }

    /// A raw reading after range normalization.
    pub open spec fn normalized_of(self, raw: u32) -> int {
        normalize_spec(self.camera_min_luma(), self.camera_max_luma(), raw)
    }

    /// A raw reading after normalization and exponential smoothing.
    pub open spec fn smoothed_of(self, raw: u32) -> int {
        if self.ema().initialized() {
            ema_blend(
                self.ema().alpha() as int,
                self.ema().value() as int,
                self.normalized_of(raw),
            )
        } else {
            self.normalized_of(raw)
        }
    }

    /// A raw reading after normalization, smoothing and the circadian
    /// multiplier of `hour`.
    pub open spec fn adjusted_of(self, raw: u32, hour: u8) -> int {
        circadian_applied_spec(
            self.enable_circadian(),
            self.circadian(),
            self.smoothed_of(raw) as u32,
            hour,
        )
    }

    /// Whether the dead-band gate suppresses an adjusted value: a previous
    /// one exists and the movement stays under the configured delta.
    pub open spec fn suppresses(self, adjusted: u32) -> bool {
        self.has_luma() && distance(adjusted as int, self.last_adjusted_luma() as int)
            < self.min_luma_delta()
    }

    /// Everything one capture tick does, given the wall-clock hour it read:
    /// the conditioned signal is recorded for the next dead-band
    /// comparison, the capture timer resets, and — unless the dead-band
    /// suppressed it — the mapped hardware value is returned and becomes
    /// the actuator's target.
    pub open spec fn frame_outcome(
        pre: ControlLoop,
        post: ControlLoop,
        raw: u32,
        hour: u8,
        now_ms: u64,
        r: Option<u32>,
    ) -> bool {
        let adjusted = pre.adjusted_of(raw, hour) as u32;
        &&& post.wf()
        &&& post.last_capture() == now_ms
        &&& post.has_luma()
        &&& post.last_adjusted_luma() == adjusted
        &&& post.ema().alpha() == pre.ema().alpha()
        &&& post.ema().initialized()
        &&& post.ema().value() == pre.smoothed_of(raw)
        &&& (r is None <==> pre.suppresses(adjusted))
        &&& (r is Some ==> r == Some(
            map_to_hardware_spec(adjusted, pre.real_min(), pre.real_max(), pre.hardware_max())
                as u32,
        ))
        &&& (r is None ==> post.transition() == pre.transition())
        &&& (r is Some ==> {
            &&& post.transition().target() == r.unwrap()
            &&& post.transition().current() == pre.transition().current()
            &&& post.transition().step() == pre.transition().derived_step(
                distance(r.unwrap() as int, pre.transition().current() as int),
            )
            &&& post.transition().interval() == pre.transition().interval()
            &&& post.transition().last() == pre.transition().last()
            &&& post.transition().max_step() == pre.transition().max_step()
            &&& post.transition().divisor() == pre.transition().divisor()
        })
        &&& post.status() == pre.status()
        &&& post.throttle() == pre.throttle()
        &&& post.circadian() == pre.circadian()
        &&& post.capture_interval() == pre.capture_interval()
        &&& post.camera_min_luma() == pre.camera_min_luma()
        &&& post.camera_max_luma() == pre.camera_max_luma()
        &&& post.enable_circadian() == pre.enable_circadian()
        &&& post.min_luma_delta() == pre.min_luma_delta()
        &&& post.real_min() == pre.real_min()
        &&& post.real_max() == pre.real_max()
        &&& post.hardware_max() == pre.hardware_max()
    }

    /// Builds the loop state from a validated configuration, the hardware
    /// ceiling read at startup, and the backlight value found on entry,
    /// clamped into the calibrated range. The capture timer is backdated a
    /// full interval so the first tick captures at once, and the throttle
    /// and smoother start empty.
    pub fn new(cfg: &Config, hardware_max: u32, start_value: u32, now_ms: u64) -> (r: ControlLoop)
        requires
            cfg.valid(),
        ensures
            r.wf(),
            r.ema().alpha() == cfg.smoothing_factor,
            !r.ema().initialized(),
            r.transition().current() == r.transition().target(),
            r.transition().current() == if start_value <= cfg.real_min_brightness {
                cfg.real_min_brightness
            } else if start_value >= cfg.real_max_brightness {
                cfg.real_max_brightness
            } else {
                start_value
            },
            r.transition().interval() == cfg.smooth_interval_ms,
            r.transition().max_step() == cfg.smooth_max_step,
            r.transition().divisor() == cfg.smooth_step_divisor,
            r.transition().last() == now_ms,
            r.status().last_value() == r.transition().current(),
            r.status().base_interval() == secs_to_ms(cfg.status_interval_secs),
            r.status().base_threshold() == cfg.status_threshold,
            r.status().fast_interval() == secs_to_ms(cfg.status_fast_interval_secs),
            r.status().fast_threshold() == cfg.status_fast_threshold,
            r.status().enabled() == cfg.log_target_brightness,
            r.status().only_on_change() == cfg.status_log_only_on_change,
            r.throttle().last_log() is None,
            r.throttle().interval() == secs_to_ms(cfg.error_throttle_secs),
            r.circadian().day_multiplier() == cfg.circadian_day_multiplier,
            r.circadian().night_multiplier() == cfg.circadian_night_multiplier,
            r.circadian().day_start_hour() == cfg.circadian_day_start_hour,
            r.circadian().night_start_hour() == cfg.circadian_night_start_hour,
            !r.has_luma(),
            r.last_adjusted_luma() == 0,
            r.capture_interval() == cfg.capture_interval_ms,
            elapsed_ms(now_ms, r.last_capture()) >= cfg.capture_interval_ms || r.last_capture()
                == 0,
            r.camera_min_luma() == cfg.camera_min_luma,
            r.camera_max_luma() == cfg.camera_max_luma,
            r.enable_circadian() == cfg.enable_circadian,
            r.min_luma_delta() == cfg.min_luma_delta,
            r.real_min() == cfg.real_min_brightness,
            r.real_max() == cfg.real_max_brightness,
            r.hardware_max() == hardware_max,
    {
        let start_val: u32 = if start_value <= cfg.real_min_brightness {
            cfg.real_min_brightness
        } else if start_value >= cfg.real_max_brightness {
            cfg.real_max_brightness
        } else {
            start_value
        };
        ControlLoop {
            ema: Ema::new(cfg.smoothing_factor),
            transition: SmoothTransition::new(
                start_val,
                cfg.smooth_interval_ms,
                cfg.smooth_step_divisor,
                cfg.smooth_max_step,
                now_ms,
            ),
            status: StatusReporter::new(
                start_val,
                now_ms,
                cfg.status_interval_secs,
                cfg.status_threshold,
                cfg.status_fast_interval_secs,
                cfg.status_fast_threshold,
                cfg.log_target_brightness,
                cfg.status_log_only_on_change,
            ),
            throttle: ErrorThrottle::new(saturating_secs_to_ms(cfg.error_throttle_secs)),
            circadian: TimeAdjuster::from_config(cfg),
            has_luma: false,
            last_adjusted_luma: 0,
            last_capture: if now_ms >= cfg.capture_interval_ms {
                now_ms - cfg.capture_interval_ms
            } else {
                0
            },
            capture_interval: cfg.capture_interval_ms,
            camera_min_luma: cfg.camera_min_luma,
            camera_max_luma: cfg.camera_max_luma,
            enable_circadian: cfg.enable_circadian,
            min_luma_delta: cfg.min_luma_delta,
            real_min: cfg.real_min_brightness,
            real_max: cfg.real_max_brightness,
            hardware_max,
        }
    }

    /// Whether the capture timer is due at `now_ms`.
    pub fn capture_due(&self, now_ms: u64) -> (r: bool)
        ensures
            r == (elapsed_ms(now_ms, self.last_capture()) >= self.capture_interval()),
    {
        let elapsed: u64 = if now_ms >= self.last_capture {
            now_ms - self.last_capture
        } else {
            0
        };
        elapsed >= self.capture_interval
    }

    /// Runs the conditioning chain on one raw ambient estimate with the
    /// circadian multiplier of a known hour; see
    /// [`ControlLoop::frame_outcome`] for everything it does.
    pub fn handle_frame_at_hour(&mut self, raw_luma: u32, hour: u8, now_ms: u64) -> (r: Option<
        u32,
    >)
        requires
            old(self).wf(),
            raw_luma <= SCALE,
        ensures
            ControlLoop::frame_outcome(*old(self), *final(self), raw_luma, hour, now_ms, r),
    {
        let normalized = normalize_luma(self.camera_min_luma, self.camera_max_luma, raw_luma);
        let smoothed = self.ema.update(normalized);
        let adjusted = apply_circadian_at(self.enable_circadian, &self.circadian, smoothed, hour);
        let target = update_brightness(
            adjusted,
            &mut self.has_luma,
            &mut self.last_adjusted_luma,
            self.min_luma_delta,
            self.real_min,
            self.real_max,
            self.hardware_max,
        );
        if let Some(t) = target {
            proof {
                crate::pipeline::lemma_hardware_clamp(
                    adjusted,
                    self.real_min,
                    self.real_max,
                    self.hardware_max,
                );
            }
            self.transition.set_target(t, self.hardware_max);
        }
        self.last_capture = now_ms;
        target
    }

    /// Runs the conditioning chain on one raw ambient estimate at the
    /// current wall-clock hour.
    pub fn handle_frame(&mut self, raw_luma: u32, now_ms: u64) -> (r: Option<u32>)
        requires
            old(self).wf(),
            raw_luma <= SCALE,
        ensures
            exists|h: u8|
                h < 24 && ControlLoop::frame_outcome(
                    *old(self),
                    *final(self),
                    raw_luma,
                    h,
                    now_ms,
                    r,
                ),
    {
        let hour = local_hour();
        let r = self.handle_frame_at_hour(raw_luma, hour, now_ms);
        proof {
            assert(hour < 24 && ControlLoop::frame_outcome(
                *old(self),
                *self,
                raw_luma,
                hour,
                now_ms,
                r,
            ));
        }
        r
    }

    /// Notes one failed capture: the capture timer still resets, and the
    /// throttle decides whether the fault is to be reported, given whether
    /// the logging sink accepts the report's severity.
    pub fn note_capture_failure(&mut self, now_ms: u64, sink_enabled: bool) -> (r: bool)
        requires
            old(self).wf(),
        ensures
            final(self).wf(),
            r == (old(self).throttle().due_spec(now_ms) && sink_enabled),
            final(self).throttle().interval() == old(self).throttle().interval(),
            final(self).throttle().last_log() == if r {
                Some(now_ms)
            } else {
                old(self).throttle().last_log()
            },
            final(self).last_capture() == now_ms,
            final(self).ema() == old(self).ema(),
            final(self).transition() == old(self).transition(),
            final(self).status() == old(self).status(),
            final(self).circadian() == old(self).circadian(),
            final(self).has_luma() == old(self).has_luma(),
            final(self).last_adjusted_luma() == old(self).last_adjusted_luma(),
            final(self).capture_interval() == old(self).capture_interval(),
            final(self).camera_min_luma() == old(self).camera_min_luma(),
            final(self).camera_max_luma() == old(self).camera_max_luma(),
            final(self).enable_circadian() == old(self).enable_circadian(),
            final(self).min_luma_delta() == old(self).min_luma_delta(),
            final(self).real_min() == old(self).real_min(),
            final(self).real_max() == old(self).real_max(),
            final(self).hardware_max() == old(self).hardware_max(),
    {
        let r = self.throttle.should_emit(now_ms, sink_enabled);
        self.last_capture = now_ms;
        r
    }

    /// Feeds the status gate the actuator's current value and the last
    /// adjusted luma; returns the pair to report when a line is owed.
    pub fn record_status(&mut self, now_ms: u64) -> (r: Option<(u32, u32)>)
        requires
            old(self).wf(),
        ensures
            final(self).wf(),
            r is Some <==> old(self).status().enabled() && old(self).status().should_emit_spec(
                old(self).transition().current(),
                now_ms,
            ),
            r is Some ==> r == Some(
                (old(self).transition().current(), old(self).last_adjusted_luma()),
            ),
            final(self).status().last_luma() == old(self).last_adjusted_luma(),
            final(self).status().last_value() == if r is Some || !old(self).status().enabled() {
                old(self).transition().current()
            } else {
                old(self).status().last_value()
            },
            final(self).status().last_print() == if r is Some {
                now_ms
            } else {
                old(self).status().last_print()
            },
            final(self).status().base_interval() == old(self).status().base_interval(),
            final(self).status().base_threshold() == old(self).status().base_threshold(),
            final(self).status().fast_interval() == old(self).status().fast_interval(),
            final(self).status().fast_threshold() == old(self).status().fast_threshold(),
            final(self).status().enabled() == old(self).status().enabled(),
            final(self).status().only_on_change() == old(self).status().only_on_change(),
            final(self).ema() == old(self).ema(),
            final(self).transition() == old(self).transition(),
            final(self).throttle() == old(self).throttle(),
            final(self).circadian() == old(self).circadian(),
            final(self).has_luma() == old(self).has_luma(),
            final(self).last_adjusted_luma() == old(self).last_adjusted_luma(),
            final(self).last_capture() == old(self).last_capture(),
            final(self).capture_interval() == old(self).capture_interval(),
            final(self).camera_min_luma() == old(self).camera_min_luma(),
            final(self).camera_max_luma() == old(self).camera_max_luma(),
            final(self).enable_circadian() == old(self).enable_circadian(),
            final(self).min_luma_delta() == old(self).min_luma_delta(),
            final(self).real_min() == old(self).real_min(),
            final(self).real_max() == old(self).real_max(),
            final(self).hardware_max() == old(self).hardware_max(),
    {
        let value = self.transition.current_value();
        let owed = self.status.record(value, self.last_adjusted_luma, now_ms);
        if owed {
            Some((value, self.last_adjusted_luma))
        } else {
            None
        }
    }

    /// The hardware write this tick calls for, if one is due: the actuator
    /// value after the next bounded move. The state does not advance; the
    /// caller performs the write and, only when it succeeds, commits with
    /// [`ControlLoop::commit_actuation`], so a failed write is retried on
    /// the next due tick.
    pub fn pending_actuation(&self, now_ms: u64) -> (r: Option<u32>)
        requires
            self.wf(),
        ensures
            r is Some <==> self.transition().current() != self.transition().target() && elapsed_ms(
                now_ms,
                self.transition().last(),
            ) >= self.transition().interval(),
            r is Some ==> r == Some(
                step_toward(
                    self.transition().current() as int,
                    self.transition().target() as int,
                    self.transition().step() as int,
                ) as u32,
            ),
    {
        self.transition.peek_update(now_ms)
    }

    /// Advances the actuator by the move that
    /// [`ControlLoop::pending_actuation`] announced, after the caller has
    /// written it to hardware.
    pub fn commit_actuation(&mut self, now_ms: u64) -> (r: Option<u32>)
        requires
            old(self).wf(),
        ensures
            final(self).wf(),
            r is Some <==> old(self).transition().current() != old(self).transition().target()
                && elapsed_ms(now_ms, old(self).transition().last()) >= old(
                self,
            ).transition().interval(),
            r is None ==> final(self).transition() == old(self).transition(),
            r is Some ==> {
                &&& final(self).transition().current() == step_toward(
                    old(self).transition().current() as int,
                    old(self).transition().target() as int,
                    old(self).transition().step() as int,
                )
                &&& r == Some(final(self).transition().current())
                &&& final(self).transition().last() == now_ms
                &&& final(self).transition().target() == old(self).transition().target()
                &&& final(self).transition().step() == old(self).transition().step()
                &&& final(self).transition().interval() == old(self).transition().interval()
                &&& final(self).transition().max_step() == old(self).transition().max_step()
                &&& final(self).transition().divisor() == old(self).transition().divisor()
            },
            final(self).ema() == old(self).ema(),
            final(self).status() == old(self).status(),
            final(self).throttle() == old(self).throttle(),
            final(self).circadian() == old(self).circadian(),
            final(self).has_luma() == old(self).has_luma(),
            final(self).last_adjusted_luma() == old(self).last_adjusted_luma(),
            final(self).last_capture() == old(self).last_capture(),
            final(self).capture_interval() == old(self).capture_interval(),
            final(self).camera_min_luma() == old(self).camera_min_luma(),
            final(self).camera_max_luma() == old(self).camera_max_luma(),
            final(self).enable_circadian() == old(self).enable_circadian(),
            final(self).min_luma_delta() == old(self).min_luma_delta(),
            final(self).real_min() == old(self).real_min(),
            final(self).real_max() == old(self).real_max(),
            final(self).hardware_max() == old(self).hardware_max(),
    {
        self.transition.update(now_ms)
    }

    /// How long an idle tick may sleep: until the next capture or the next
    /// actuator move, whichever comes first, and never more than
    /// [`MAX_IDLE_SLEEP_MS`] so cancellation stays responsive.
    pub fn sleep_budget(&self, now_ms: u64) -> (r: u64)
        ensures
            r <= MAX_IDLE_SLEEP_MS,
            r == {
                let capture_wait = if elapsed_ms(now_ms, self.last_capture())
                    >= self.capture_interval() {
                    0
                } else {
                    self.capture_interval() - elapsed_ms(now_ms, self.last_capture())
                };
                let smooth_wait = if self.transition().current() == self.transition().target() {
                    crate::smooth_transition::IDLE_WAIT_MS as int
                } else if elapsed_ms(now_ms, self.transition().last())
                    >= self.transition().interval() {
                    0
                } else {
                    self.transition().interval() - elapsed_ms(now_ms, self.transition().last())
                };
                let least = if capture_wait <= smooth_wait {
                    capture_wait
                } else {
                    smooth_wait
                };
                if least <= MAX_IDLE_SLEEP_MS {
                    least
                } else {
                    MAX_IDLE_SLEEP_MS as int
                }
            },
    {
        let since_capture: u64 = if now_ms >= self.last_capture {
            now_ms - self.last_capture
        } else {
            0
        };
        let capture_wait: u64 = if since_capture >= self.capture_interval {
            0
        } else {
            self.capture_interval - since_capture
        };
        let smooth_wait: u64 = self.transition.time_until_next_step(now_ms);
        let least: u64 = if capture_wait <= smooth_wait {
            capture_wait
        } else {
            smooth_wait
        };
        if least <= MAX_IDLE_SLEEP_MS {
            least
        } else {
            MAX_IDLE_SLEEP_MS
        }
    }

    /// The actuator value most recently applied.
    pub fn current_value(&self) -> (r: u32)
        ensures
            r == self.transition().current(),
    {
        self.transition.current_value()
    }
}

} // verus!
