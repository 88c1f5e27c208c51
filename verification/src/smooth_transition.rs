//! Rate-limited actuator: steps a hardware brightness value toward a target
//! over time, bounding per-tick movement and never overshooting.
//!
//! Timestamps are milliseconds on a monotonic clock, supplied by the caller.

use vstd::prelude::*;

verus! {

/// Sentinel wait reported while the controller is converged: one hour.
pub const IDLE_WAIT_MS: u64 = 3_600_000;

/// One bounded move of `current` toward `target`: by at most `step`, never
/// past the target.
pub open spec fn step_toward(current: int, target: int, step: int) -> int {
    if current < target {
        if current + step < target {
            current + step
        } else {
            target
        }
    } else {
        if current - step > target {
            current - step
        } else {
            target
        }
    }
}

/// The distance left after `n` bounded moves toward `target`.
pub open spec fn iterate_toward(current: int, target: int, step: int, n: nat) -> int
    decreases n,
{
    if n == 0 {
        current
    } else {
        step_toward(iterate_toward(current, target, step, (n - 1) as nat), target, step)
    }
}

/// Absolute distance between two values.
pub open spec fn distance(a: int, b: int) -> int {
    if a >= b {
        a - b
    } else {
        b - a
    }
}

/// One bounded move shrinks the distance to the target by exactly
/// `min(step, distance)`, and never crosses the target.
pub proof fn lemma_step_toward_progress(current: int, target: int, step: int)
    requires
        step >= 1,
    ensures
        distance(step_toward(current, target, step), target)
            == if distance(current, target) >= step {
                distance(current, target) - step
            } else {
                0
            },
        current <= target ==> current <= step_toward(current, target, step) <= target,
        current >= target ==> current >= step_toward(current, target, step) >= target,
{
}

/// After `n` bounded moves the remaining distance has shrunk by at least `n`.
pub proof fn lemma_transition_distance_bound(current: int, target: int, step: int, n: nat)
    requires
        step >= 1,
    ensures
        distance(iterate_toward(current, target, step, n), target) <= if distance(current, target)
            - n >= 0 {
            distance(current, target) - n
        } else {
            0
        },
    decreases n,
{
    if n > 0 {
        lemma_transition_distance_bound(current, target, step, (n - 1) as nat);
        lemma_step_toward_progress(iterate_toward(current, target, step, (n - 1) as nat), target,
            step);
    }
}

/// Monotonic convergence: once at least `distance(current, target)` bounded
/// moves have been applied, the value has reached the target, and it stays
/// there.
pub proof fn lemma_transition_converges(current: int, target: int, step: int, n: nat)
    requires
        step >= 1,
        n >= distance(current, target),
    ensures
        iterate_toward(current, target, step, n) == target,
{
    lemma_transition_distance_bound(current, target, step, n);
}

/// The distance to the target never grows from one bounded move to the next.
pub proof fn lemma_transition_monotone(current: int, target: int, step: int, n: nat)
    requires
        step >= 1,
    ensures
        distance(iterate_toward(current, target, step, n + 1), target)
            <= distance(iterate_toward(current, target, step, n), target),
{
    lemma_step_toward_progress(iterate_toward(current, target, step, n), target, step);
}

/// Rate-limited actuator state. `current` converges to `target` by at most
/// `step` units per elapsed `interval`, and `step` is recomputed from the
/// remaining distance whenever the target changes.
#[derive(Clone, Copy)]
pub struct SmoothTransition {
    target: u32,
    current: u32,
    step: u32,
    min_step: u32,
    max_step: u32,
    last: u64,
    interval: u64,
    divisor: u32,
}

impl SmoothTransition {
    /// The value most recently applied (or seeded).
    pub closed spec fn current(self) -> u32 {
        self.current
    }

    /// The value the controller is moving toward.
    pub closed spec fn target(self) -> u32 {
        self.target
    }

    /// The per-move bound computed at the last target change.
    pub closed spec fn step(self) -> u32 {
        self.step
    }

    /// The largest per-move bound ever allowed.
    pub closed spec fn max_step(self) -> u32 {
        self.max_step
    }

    /// Milliseconds that must elapse between applied moves.
    pub closed spec fn interval(self) -> u64 {
        self.interval
    }

    /// Timestamp of the last applied move, in milliseconds.
    pub closed spec fn last(self) -> u64 {
        self.last
    }

    /// Divisor that turns the remaining distance into a step size.
    pub closed spec fn divisor(self) -> u32 {
        self.divisor
    }

    /// The smallest per-move bound; always one.
    pub closed spec fn min_step(self) -> u32 {
        self.min_step
    }

    /// Representation invariant: the step bounds are positive and the step
    /// itself always lies in `[1, max_step]`.
    pub open spec fn wf(self) -> bool {
        &&& self.divisor() >= 1
        &&& self.min_step() == 1
        &&& self.max_step() >= 1
        &&& 1 <= self.step() <= self.max_step()
    }

    /// The step the controller derives from a remaining distance:
    /// `clamp(diff / divisor, 1, max_step)`.
    pub open spec fn derived_step(self, diff: int) -> int {
        let raw = diff / self.divisor() as int;
        if raw < 1 {
            1
        } else if raw > self.max_step() as int {
            self.max_step() as int
        } else {
            raw
        }
    }

    /// Creates a converged controller seeded at `initial`. A zero divisor or
    /// step bound is lifted to one.
    pub fn new(initial: u32, interval_ms: u64, divisor: u32, max_step: u32, now_ms: u64) -> (r:
        SmoothTransition)
        ensures
            r.wf(),
            r.current() == initial,
            r.target() == initial,
            r.step() == 1,
            r.max_step() == if max_step >= 1 { max_step } else { 1 },
            r.divisor() == if divisor >= 1 { divisor } else { 1 },
            r.interval() == interval_ms,
            r.last() == now_ms,
    {
        let divisor: u32 = if divisor >= 1 { divisor } else { 1 };
        let max_step: u32 = if max_step >= 1 { max_step } else { 1 };
        SmoothTransition {
            target: initial,
            current: initial,
            step: 1,
            min_step: 1,
            max_step,
            last: now_ms,
            interval: interval_ms,
            divisor,
        }
    }

    /// Points the controller at a new target, clamped to `max_brightness`,
    /// and recomputes the step from the new remaining distance.
    pub fn set_target(&mut self, t: u32, max_brightness: u32)
        requires
            old(self).wf(),
        ensures
            final(self).wf(),
            final(self).target() == if t <= max_brightness { t } else { max_brightness },
            final(self).step() == old(self).derived_step(
                distance(final(self).target() as int, final(self).current() as int),
            ),
            final(self).current() == old(self).current(),
            final(self).max_step() == old(self).max_step(),
            final(self).divisor() == old(self).divisor(),
            final(self).interval() == old(self).interval(),
            final(self).last() == old(self).last(),
    {
        self.target = if t <= max_brightness { t } else { max_brightness };
        let diff: u32 = if self.target >= self.current {
            self.target - self.current
        } else {
            self.current - self.target
        };
        let raw: u32 = diff / self.divisor;
        let stepped: u32 = if raw >= self.min_step { raw } else { self.min_step };
        self.step = if stepped <= self.max_step { stepped } else { self.max_step };
    }

    /// Applies one move if the controller has not converged and `interval`
    /// milliseconds have elapsed since the last move; returns the new value
    /// to write to hardware, or `None` when nothing is due.
    pub fn update(&mut self, now_ms: u64) -> (r: Option<u32>)
        requires
            old(self).wf(),
        ensures
            final(self).wf(),
            final(self).target() == old(self).target(),
            final(self).step() == old(self).step(),
            final(self).max_step() == old(self).max_step(),
            final(self).divisor() == old(self).divisor(),
            final(self).interval() == old(self).interval(),
            r is Some <==> old(self).current() != old(self).target() && (if now_ms >= old(
                self,
            ).last() {
                now_ms - old(self).last()
            } else {
                0
            }) >= old(self).interval(),
            r is None ==> *final(self) == *old(self),
            r is Some ==> {
                &&& final(self).current() == step_toward(
                    old(self).current() as int,
                    old(self).target() as int,
                    old(self).step() as int,
                )
                &&& r == Some(final(self).current())
                &&& final(self).last() == now_ms
            },
    {
        if self.current == self.target {
            return None;
        }
        let elapsed: u64 = if now_ms >= self.last {
            now_ms - self.last
        } else {
            0
        };
        if elapsed < self.interval {
            return None;
        }
        let diff: u32 = if self.target >= self.current {
            self.target - self.current
        } else {
            self.current - self.target
        };
        let step: u32 = if self.step <= diff {
            self.step
        } else {
            diff
        };
        self.current = if self.current < self.target {
            self.current + step
        } else {
            self.current - step
        };
        self.last = now_ms;
        Some(self.current)
    }

    /// The value one call of [`SmoothTransition::update`] at `now_ms` would
    /// apply, without applying it. A caller that must not advance the
    /// controller unless a hardware write succeeds peeks first and calls
    /// `update` only after the write.
    pub fn peek_update(&self, now_ms: u64) -> (r: Option<u32>)
        requires
            self.wf(),
        ensures
            r is Some <==> self.current() != self.target() && (if now_ms >= self.last() {
                now_ms - self.last()
            } else {
                0
            }) >= self.interval(),
            r is Some ==> r == Some(
                step_toward(self.current() as int, self.target() as int, self.step() as int) as u32,
            ),
    {
        let mut probe = *self;
        probe.update(now_ms)
    }

    /// Reports how long the scheduler may sleep before the next move is due:
    /// zero when a move is overdue, the remaining wait while one is pending,
    /// and [`IDLE_WAIT_MS`] while converged.
    pub fn time_until_next_step(&self, now_ms: u64) -> (r: u64)
        ensures
            self.current() == self.target() ==> r == IDLE_WAIT_MS,
            self.current() != self.target() ==> r == {
                let elapsed = if now_ms >= self.last() {
                    now_ms - self.last()
                } else {
                    0
                };
                if elapsed >= self.interval() {
                    0
                } else {
                    self.interval() - elapsed
                }
            },
    {
        if self.current == self.target {
            return IDLE_WAIT_MS;
        }
        let elapsed: u64 = if now_ms >= self.last {
            now_ms - self.last
        } else {
            0
        };
        if elapsed >= self.interval {
            0
        } else {
            self.interval - elapsed
        }
    }

    /// The value most recently applied.
    pub fn current_value(&self) -> (r: u32)
        ensures
            r == self.current(),
    {
        self.current
    }
}

} // verus!
