//! Validated configuration for the control loop.
//!
//! Fractional settings (smoothing factor, circadian multipliers, luma bounds
//! and dead-band) are fixed-point values scaled by [`SCALE`]; every interval
//! is in whole milliseconds or seconds. Loading and saving configuration
//! files is left to the surrounding program: the control loop only accepts a
//! record that [`Config::validate`] has passed.

use vstd::prelude::*;
use crate::SCALE;

verus! {

/// Minimum severity filter for the logging sink.
#[derive(Clone, Copy, Debug, PartialEq, Eq, Structural, PartialOrd, Ord, Hash)]
pub enum LogLevel {
    Off,
    Minimal,
    Low,
    Medium,
    High,
    Verbose,
}

impl LogLevel {
    /// Severity rank: higher ranks are more verbose.
    pub open spec fn rank_spec(self) -> int {
        match self {
            LogLevel::Off => 0,
            LogLevel::Minimal => 1,
            LogLevel::Low => 2,
            LogLevel::Medium => 3,
            LogLevel::High => 4,
            LogLevel::Verbose => 5,
        }
    }

    /// Severity rank: higher ranks are more verbose.
    pub fn rank(self) -> (r: u8)
        ensures
            r == self.rank_spec(),
    {
        match self {
            LogLevel::Off => 0,
            LogLevel::Minimal => 1,
            LogLevel::Low => 2,
            LogLevel::Medium => 3,
            LogLevel::High => 4,
            LogLevel::Verbose => 5,
        }
    }

    /// Whether a line of severity `self` passes a sink configured at
    /// `configured`: it does when the sink is at least as verbose.
    pub fn passes(self, configured: LogLevel) -> (r: bool)
        ensures
            r == (self.rank_spec() <= configured.rank_spec()),
    {
        self.rank() <= configured.rank()
    }
}

impl Default for LogLevel {
    /// The default severity filter.
    fn default() -> (r: Self)
        ensures
            r == LogLevel::Medium,
    {
        LogLevel::Medium
    }
}

/// Top-level behaviour of the scheduler for one run.
#[derive(Clone, Copy, Debug, PartialEq, Eq, Structural)]
pub enum DaemonMode {
    /// Run until cancelled.
    Realtime,
    /// Run for the configured duration, then return.
    Boot,
    /// Alternate bounded active phases with cancellable pauses.
    Interval,
}

/// The reason a configuration record was rejected.
#[derive(Clone, Copy, Debug, PartialEq, Eq, Structural)]
pub enum ConfigError {
    /// `real_max_brightness` is not above `real_min_brightness`.
    BrightnessRangeInvalid,
    /// A resolution entry is zero.
    ResolutionZero,
    /// `capture_interval_ms` is zero.
    CaptureIntervalZero,
    /// `smooth_interval_ms` is zero.
    SmoothIntervalZero,
    /// `smoothing_factor` is above one.
    SmoothingFactorOutOfRange,
    /// `smoothing_factor` is zero.
    SmoothingFactorZero,
    /// `smooth_step_divisor` is zero.
    StepDivisorZero,
    /// `smooth_max_step` is zero.
    MaxStepZero,
    /// `warmup_frames` is zero.
    WarmupFramesZero,
    /// Both calibration bounds are present but not strictly increasing.
    LumaRangeInvalid,
    /// `status_interval_secs` is zero.
    StatusIntervalZero,
    /// `status_fast_interval_secs` is zero.
    StatusFastIntervalZero,
    /// `status_threshold` is zero.
    StatusThresholdZero,
    /// `status_fast_threshold` is zero.
    StatusFastThresholdZero,
    /// `error_throttle_secs` is zero.
    ErrorThrottleZero,
}

/// All settings the control loop reads. Fractions are fixed-point values of
/// [`SCALE`].
#[derive(Clone, Debug)]
pub struct Config {
    pub camera_device: usize,
    pub resolution: [u32; 2],
    pub warmup_frames: usize,
    pub smoothing_factor: u32,
    pub real_min_brightness: u32,
    pub real_max_brightness: u32,
    pub capture_interval_ms: u64,
    pub smooth_interval_ms: u64,
    pub smooth_step_divisor: u32,
    pub smooth_max_step: u32,
    pub camera_min_luma: Option<u32>,
    pub camera_max_luma: Option<u32>,
    pub calibrated: bool,
    pub logging: LogLevel,
    pub logging_path: Option<String>,
    pub enable_circadian: bool,
    pub circadian_day_multiplier: u32,
    pub circadian_night_multiplier: u32,
    pub circadian_day_start_hour: u8,
    pub circadian_night_start_hour: u8,
    pub status_interval_secs: u64,
    pub status_threshold: u32,
    pub status_fast_interval_secs: u64,
    pub status_fast_threshold: u32,
    pub error_throttle_secs: u64,
    pub min_luma_delta: u32,
    pub log_target_brightness: bool,
    pub status_log_only_on_change: bool,
    pub mode: DaemonMode,
    pub run_duration_ms: u64,
    pub pause_interval_ms: u64,
    pub interval_boot: bool,
    pub half_precision: bool,
}

pub fn default_enable_circadian() -> (r: bool)
    ensures
        r,
{
    true
}

pub fn default_day_multiplier() -> (r: u32)
    ensures
        r == 1_050_000u32,
{
    1_050_000
}

pub fn default_night_multiplier() -> (r: u32)
    ensures
        r == 950_000u32,
{
    950_000
}

pub fn default_day_start_hour() -> (r: u8)
    ensures
        r == 6u8,
{
    6
}

pub fn default_night_start_hour() -> (r: u8)
    ensures
        r == 18u8,
{
    18
}

pub fn default_status_interval_secs() -> (r: u64)
    ensures
        r == 5u64,
{
    5
}

pub fn default_status_threshold() -> (r: u32)
    ensures
        r == 8u32,
{
    8
}

pub fn default_status_fast_interval_secs() -> (r: u64)
    ensures
        r == 1u64,
{
    1
}

pub fn default_status_fast_threshold() -> (r: u32)
    ensures
        r == 40u32,
{
    40
}

pub fn default_error_throttle_secs() -> (r: u64)
    ensures
        r == 2u64,
{
    2
}

pub fn default_min_luma_delta() -> (r: u32)
    ensures
        r == 10_000u32,
{
    10_000
}

pub fn default_log_target_brightness() -> (r: bool)
    ensures
        r,
{
    true
}

pub fn default_status_log_only_on_change() -> (r: bool)
    ensures
        r,
{
    true
}

impl Config {
    /// Every condition the control loop relies on, as one conjunction.
    pub open spec fn valid(self) -> bool {
        &&& self.real_max_brightness > self.real_min_brightness
        &&& self.resolution[0] != 0
        &&& self.resolution[1] != 0
        &&& self.capture_interval_ms != 0
        &&& self.smooth_interval_ms != 0
        &&& 0 < self.smoothing_factor <= SCALE
        &&& self.smooth_step_divisor != 0
        &&& self.smooth_max_step != 0
        &&& self.warmup_frames != 0
        &&& (self.camera_min_luma is Some && self.camera_max_luma is Some
            ==> self.camera_max_luma.unwrap() > self.camera_min_luma.unwrap())
        &&& self.status_interval_secs != 0
        &&& self.status_fast_interval_secs != 0
        &&& self.status_threshold != 0
        &&& self.status_fast_threshold != 0
        &&& self.error_throttle_secs != 0
    }

    /// The outcome of validation: the first violated condition, in the order
    /// the checks are made, or success.
    pub open spec fn validate_spec(self) -> Result<(), ConfigError> {
        if self.real_max_brightness <= self.real_min_brightness {
            Err(ConfigError::BrightnessRangeInvalid)
        } else if self.resolution[0] == 0 || self.resolution[1] == 0 {
            Err(ConfigError::ResolutionZero)
        } else if self.capture_interval_ms == 0 {
            Err(ConfigError::CaptureIntervalZero)
        } else if self.smooth_interval_ms == 0 {
            Err(ConfigError::SmoothIntervalZero)
        } else if self.smoothing_factor > SCALE {
            Err(ConfigError::SmoothingFactorOutOfRange)
        } else if self.smoothing_factor == 0 {
            Err(ConfigError::SmoothingFactorZero)
        } else if self.smooth_step_divisor == 0 {
            Err(ConfigError::StepDivisorZero)
        } else if self.smooth_max_step == 0 {
            Err(ConfigError::MaxStepZero)
        } else if self.warmup_frames == 0 {
            Err(ConfigError::WarmupFramesZero)
        } else if self.camera_min_luma is Some && self.camera_max_luma is Some
            && self.camera_max_luma.unwrap() <= self.camera_min_luma.unwrap() {
            Err(ConfigError::LumaRangeInvalid)
        } else if self.status_interval_secs == 0 {
            Err(ConfigError::StatusIntervalZero)
        } else if self.status_fast_interval_secs == 0 {
            Err(ConfigError::StatusFastIntervalZero)
        } else if self.status_threshold == 0 {
            Err(ConfigError::StatusThresholdZero)
        } else if self.status_fast_threshold == 0 {
            Err(ConfigError::StatusFastThresholdZero)
        } else if self.error_throttle_secs == 0 {
            Err(ConfigError::ErrorThrottleZero)
        } else {
            Ok(())
        }
    }

    /// Checks every condition the control loop relies on; succeeds exactly on
    /// the records that satisfy [`Config::valid`], and otherwise names the
    /// first violated condition.
    pub fn validate(&self) -> (r: Result<(), ConfigError>)
        ensures
            r == self.validate_spec(),
            r is Ok <==> self.valid(),
    {
        if self.real_max_brightness <= self.real_min_brightness {
            return Err(ConfigError::BrightnessRangeInvalid);
        }
        if self.resolution[0] == 0 || self.resolution[1] == 0 {
            return Err(ConfigError::ResolutionZero);
        }
        if self.capture_interval_ms == 0 {
            return Err(ConfigError::CaptureIntervalZero);
        }
        if self.smooth_interval_ms == 0 {
            return Err(ConfigError::SmoothIntervalZero);
        }
        if self.smoothing_factor > SCALE {
            return Err(ConfigError::SmoothingFactorOutOfRange);
        }
        if self.smoothing_factor == 0 {
            return Err(ConfigError::SmoothingFactorZero);
        }
        if self.smooth_step_divisor == 0 {
            return Err(ConfigError::StepDivisorZero);
        }
        if self.smooth_max_step == 0 {
            return Err(ConfigError::MaxStepZero);
        }
        if self.warmup_frames == 0 {
            return Err(ConfigError::WarmupFramesZero);
        }
        if let (Some(min), Some(max)) = (self.camera_min_luma, self.camera_max_luma) {
            if max <= min {
                return Err(ConfigError::LumaRangeInvalid);
            }
        }
        if self.status_interval_secs == 0 {
            return Err(ConfigError::StatusIntervalZero);
        }
        if self.status_fast_interval_secs == 0 {
            return Err(ConfigError::StatusFastIntervalZero);
        }
        if self.status_threshold == 0 {
            return Err(ConfigError::StatusThresholdZero);
        }
        if self.status_fast_threshold == 0 {
            return Err(ConfigError::StatusFastThresholdZero);
        }
        if self.error_throttle_secs == 0 {
            return Err(ConfigError::ErrorThrottleZero);
        }
        Ok(())
    }

    /// The run mode this process actually uses: the boot-time override flag
    /// forces `Interval` regardless of the configured mode.
    pub fn effective_mode(&self) -> (r: DaemonMode)
        ensures
            r == if self.interval_boot {
                DaemonMode::Interval
            } else {
                self.mode
            },
    {
        if self.interval_boot {
            DaemonMode::Interval
        } else {
            self.mode
        }
    }
}

impl Default for Config {
    /// Built-in defaults, used when no configuration file is found.
    fn default() -> (r: Self)
        ensures
            r.valid(),
            r.camera_device == 0,
            r.resolution == [640u32, 400u32],
            r.warmup_frames == 30,
            r.smoothing_factor == 150_000u32,
            r.real_min_brightness == 47u32,
            r.real_max_brightness == 937u32,
            r.capture_interval_ms == 500u64,
            r.smooth_interval_ms == 50u64,
            r.smooth_step_divisor == 20u32,
            r.smooth_max_step == 60u32,
            r.camera_min_luma == Some(50_000u32),
            r.camera_max_luma == Some(800_000u32),
            r.calibrated,
            r.logging == LogLevel::Low,
            r.logging_path is None,
            r.enable_circadian,
            r.circadian_day_multiplier == 1_050_000u32,
            r.circadian_night_multiplier == 950_000u32,
            r.circadian_day_start_hour == 6u8,
            r.circadian_night_start_hour == 18u8,
            r.status_interval_secs == 5u64,
            r.status_threshold == 8u32,
            r.status_fast_interval_secs == 1u64,
            r.status_fast_threshold == 40u32,
            r.error_throttle_secs == 2u64,
            r.min_luma_delta == 10_000u32,
            r.log_target_brightness,
            r.status_log_only_on_change,
            r.mode == DaemonMode::Realtime,
            r.run_duration_ms == 30_000u64,
            r.pause_interval_ms == 300_000u64,
            !r.interval_boot,
            !r.half_precision,
    {
        Config {
            camera_device: 0,
            resolution: [640, 400],
            warmup_frames: 30,
            smoothing_factor: 150_000,
            real_min_brightness: 47,
            real_max_brightness: 937,
            capture_interval_ms: 500,
            smooth_interval_ms: 50,
            smooth_step_divisor: 20,
            smooth_max_step: 60,
            camera_min_luma: Some(50_000),
            camera_max_luma: Some(800_000),
            calibrated: true,
            logging: LogLevel::Low,
            logging_path: None,
            enable_circadian: default_enable_circadian(),
            circadian_day_multiplier: default_day_multiplier(),
            circadian_night_multiplier: default_night_multiplier(),
            circadian_day_start_hour: default_day_start_hour(),
            circadian_night_start_hour: default_night_start_hour(),
            status_interval_secs: default_status_interval_secs(),
            status_threshold: default_status_threshold(),
            status_fast_interval_secs: default_status_fast_interval_secs(),
            status_fast_threshold: default_status_fast_threshold(),
            error_throttle_secs: default_error_throttle_secs(),
            min_luma_delta: default_min_luma_delta(),
            log_target_brightness: default_log_target_brightness(),
            status_log_only_on_change: default_status_log_only_on_change(),
            mode: DaemonMode::Realtime,
            run_duration_ms: 30_000,
            pause_interval_ms: 300_000,
            interval_boot: false,
            half_precision: false,
        }
    }
}

} // verus!
