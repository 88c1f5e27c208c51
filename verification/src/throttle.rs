//! Rate limiting for recoverable fault reports, so a failing sensor cannot
//! flood the output.

use vstd::prelude::*;
use crate::elapsed_ms;

verus! {

/// Emits at most one report per interval, however many faults occur in
/// between. The time of the last report advances only when a report is
/// actually emitted.
pub struct ErrorThrottle {
    last_log: Option<u64>,
    interval: u64,
}

impl ErrorThrottle {
    /// Timestamp of the last emitted report, in milliseconds, if any.
    pub closed spec fn last_log(self) -> Option<u64> {
        self.last_log
    }

    /// Minimum milliseconds between emitted reports.
    pub closed spec fn interval(self) -> u64 {
        self.interval
    }

    /// Whether a fault at `now_ms` is due for a report: no report has been
    /// emitted yet, or a full interval has passed since the last one.
    pub open spec fn due_spec(self, now_ms: u64) -> bool {
        match self.last_log() {
            None => true,
            Some(t) => elapsed_ms(now_ms, t) >= self.interval(),
        }
    }

    /// Creates a throttle that has not reported yet.
    pub fn new(interval_ms: u64) -> (r: ErrorThrottle)
        ensures
            r.last_log() is None,
            r.interval() == interval_ms,
    {
        ErrorThrottle { last_log: None, interval: interval_ms }
    }

    /// Offers one fault to the throttle. Returns whether it is to be
    /// reported, given whether the logging sink accepts the report's
    /// severity; the throttle remembers the time only of reports that go
    /// out.
    pub fn should_emit(&mut self, now_ms: u64, sink_enabled: bool) -> (r: bool)
        ensures
            r == (old(self).due_spec(now_ms) && sink_enabled),
            final(self).interval() == old(self).interval(),
            final(self).last_log() == if r {
                Some(now_ms)
            } else {
                old(self).last_log()
            },
    {
        let due = match self.last_log {
            None => true,
            Some(t) => {
                let elapsed: u64 = if now_ms >= t {
                    now_ms - t
                } else {
                    0
                };
                elapsed >= self.interval
            },
        };
        let emit = due && sink_enabled;
        if emit {
            self.last_log = Some(now_ms);
        }
        emit
    }
}

} // verus!
