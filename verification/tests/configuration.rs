use smart_brightness::config::{Config, ConfigError, DaemonMode};

#[test]
fn default_configuration_is_valid() {
    assert_eq!(Config::default().validate(), Ok(()));
}

#[test]
fn inverted_brightness_range_is_rejected() {
    let mut cfg = Config::default();
    cfg.real_min_brightness = 937;
    cfg.real_max_brightness = 937;
    assert_eq!(cfg.validate(), Err(ConfigError::BrightnessRangeInvalid));
    cfg.real_max_brightness = 47;
    assert_eq!(cfg.validate(), Err(ConfigError::BrightnessRangeInvalid));
}

#[test]
fn zero_resolution_is_rejected() {
    let mut cfg = Config::default();
    cfg.resolution = [0, 400];
    assert_eq!(cfg.validate(), Err(ConfigError::ResolutionZero));
    cfg.resolution = [640, 0];
    assert_eq!(cfg.validate(), Err(ConfigError::ResolutionZero));
}

#[test]
fn zero_intervals_are_rejected() {
    let mut cfg = Config::default();
    cfg.capture_interval_ms = 0;
    assert_eq!(cfg.validate(), Err(ConfigError::CaptureIntervalZero));

    let mut cfg = Config::default();
    cfg.smooth_interval_ms = 0;
    assert_eq!(cfg.validate(), Err(ConfigError::SmoothIntervalZero));

    let mut cfg = Config::default();
    cfg.status_interval_secs = 0;
    assert_eq!(cfg.validate(), Err(ConfigError::StatusIntervalZero));

    let mut cfg = Config::default();
    cfg.status_fast_interval_secs = 0;
    assert_eq!(cfg.validate(), Err(ConfigError::StatusFastIntervalZero));

    let mut cfg = Config::default();
    cfg.error_throttle_secs = 0;
    assert_eq!(cfg.validate(), Err(ConfigError::ErrorThrottleZero));
}

#[test]
fn smoothing_factor_must_be_a_positive_fraction() {
    let mut cfg = Config::default();
    cfg.smoothing_factor = 1_000_001;
    assert_eq!(cfg.validate(), Err(ConfigError::SmoothingFactorOutOfRange));
    cfg.smoothing_factor = 0;
    assert_eq!(cfg.validate(), Err(ConfigError::SmoothingFactorZero));
    cfg.smoothing_factor = 1_000_000;
    assert_eq!(cfg.validate(), Ok(()));
}

#[test]
fn zero_step_settings_are_rejected() {
    let mut cfg = Config::default();
    cfg.smooth_step_divisor = 0;
    assert_eq!(cfg.validate(), Err(ConfigError::StepDivisorZero));

    let mut cfg = Config::default();
    cfg.smooth_max_step = 0;
    assert_eq!(cfg.validate(), Err(ConfigError::MaxStepZero));

    let mut cfg = Config::default();
    cfg.warmup_frames = 0;
    assert_eq!(cfg.validate(), Err(ConfigError::WarmupFramesZero));
}

#[test]
fn zero_thresholds_are_rejected() {
    let mut cfg = Config::default();
    cfg.status_threshold = 0;
    assert_eq!(cfg.validate(), Err(ConfigError::StatusThresholdZero));

    let mut cfg = Config::default();
    cfg.status_fast_threshold = 0;
    assert_eq!(cfg.validate(), Err(ConfigError::StatusFastThresholdZero));
}

#[test]
fn inverted_calibration_bounds_are_rejected() {
    let mut cfg = Config::default();
    cfg.camera_min_luma = Some(800_000);
    cfg.camera_max_luma = Some(50_000);
    assert_eq!(cfg.validate(), Err(ConfigError::LumaRangeInvalid));
    cfg.camera_max_luma = Some(800_000);
    cfg.camera_min_luma = Some(800_000);
    assert_eq!(cfg.validate(), Err(ConfigError::LumaRangeInvalid));
    // a missing bound is tolerated: normalization falls back to pass-through
    cfg.camera_min_luma = None;
    assert_eq!(cfg.validate(), Ok(()));
}

#[test]
fn boot_override_forces_interval_mode() {
    let mut cfg = Config::default();
    cfg.mode = DaemonMode::Realtime;
    cfg.interval_boot = true;
    assert_eq!(cfg.effective_mode(), DaemonMode::Interval);
    cfg.interval_boot = false;
    assert_eq!(cfg.effective_mode(), DaemonMode::Realtime);
    cfg.mode = DaemonMode::Boot;
    assert_eq!(cfg.effective_mode(), DaemonMode::Boot);
}
