use smart_brightness::config::Config;
use smart_brightness::scheduler::{duration_expired, ControlLoop, MAX_IDLE_SLEEP_MS};
use smart_brightness::time_adjust::TimeAdjuster;

#[test]
fn raw_reading_becomes_a_converged_hardware_value() {
    // raw 0.10 with bounds (0.05, 0.80) -> 0.0666; first sample seeds the
    // smoother; a daytime boost of 1.05 -> 0.070; mapped over 47..937 -> 109
    let cfg = Config::default();
    let mut ctl = ControlLoop::new(&cfg, 900, 0, 1_000);
    assert_eq!(ctl.current_value(), 47);
    assert!(ctl.capture_due(1_000));
    let target = ctl.handle_frame_at_hour(100_000, 12, 1_000);
    assert_eq!(target, Some(109));
    assert!(!ctl.capture_due(1_200));

    let mut now = 1_000u64;
    let mut prev = ctl.current_value();
    for _ in 0..200 {
        now += 50;
        if let Some(v) = ctl.pending_actuation(now) {
            assert!(v > prev && v <= 109, "moves toward the target only");
            let written = ctl.commit_actuation(now);
            assert_eq!(written, Some(v));
            prev = v;
        }
    }
    assert_eq!(ctl.current_value(), 109);
}

#[test]
fn suppressed_frame_leaves_the_target_alone() {
    let cfg = Config::default();
    let mut ctl = ControlLoop::new(&cfg, 900, 0, 1_000);
    assert_eq!(ctl.handle_frame_at_hour(100_000, 12, 1_000), Some(109));
    // the smoothed signal barely moves: 0.15 blend over a tiny raw change
    let again = ctl.handle_frame_at_hour(101_000, 12, 1_500);
    assert_eq!(again, None);
}

#[test]
fn failed_writes_are_retried_with_the_same_value() {
    let cfg = Config::default();
    let mut ctl = ControlLoop::new(&cfg, 900, 0, 1_000);
    ctl.handle_frame_at_hour(100_000, 12, 1_000);
    let v = ctl.pending_actuation(1_050);
    assert!(v.is_some());
    // the write failed: nothing committed, the same move stays pending
    assert_eq!(ctl.pending_actuation(1_100), v);
    assert_eq!(ctl.current_value(), 47);
    ctl.commit_actuation(1_100);
    assert_ne!(ctl.current_value(), 47);
}

#[test]
fn capture_failures_are_throttled_and_reset_the_timer() {
    let cfg = Config::default();
    let mut ctl = ControlLoop::new(&cfg, 900, 0, 1_000);
    assert!(ctl.note_capture_failure(1_000, true));
    // within the two-second throttle window nothing more is reported
    assert!(!ctl.note_capture_failure(1_600, true));
    // the capture timer was reset at the failure
    assert!(!ctl.capture_due(1_900));
    assert!(ctl.capture_due(2_100));
    // once the window has passed, the next fault is reported again
    assert!(ctl.note_capture_failure(3_100, true));
    // a sink that filters the severity swallows the report
    assert!(!ctl.note_capture_failure(99_000, false));
}

#[test]
fn status_line_reports_the_actuator_state() {
    let mut cfg = Config::default();
    cfg.status_threshold = 1;
    cfg.status_log_only_on_change = false;
    let mut ctl = ControlLoop::new(&cfg, 900, 0, 1_000);
    ctl.handle_frame_at_hour(100_000, 12, 1_000);
    ctl.commit_actuation(1_050);
    let line = ctl.record_status(1_050);
    assert_eq!(line, Some((50, 69_999)));
}

#[test]
fn disabled_status_reporting_stays_quiet() {
    let mut cfg = Config::default();
    cfg.log_target_brightness = false;
    let mut ctl = ControlLoop::new(&cfg, 900, 0, 1_000);
    ctl.handle_frame_at_hour(100_000, 12, 1_000);
    assert_eq!(ctl.record_status(1_000), None);
    assert_eq!(ctl.record_status(1_000_000), None);
}

#[test]
fn sleep_budget_tracks_the_nearest_deadline() {
    let cfg = Config::default();
    let mut ctl = ControlLoop::new(&cfg, 900, 0, 1_000);
    ctl.handle_frame_at_hour(100_000, 12, 1_000);
    // next step due at 1050, next capture at 1500, ceiling 10 ms
    assert_eq!(ctl.sleep_budget(1_010), MAX_IDLE_SLEEP_MS);
    assert_eq!(ctl.sleep_budget(1_049), 1);
    assert_eq!(ctl.sleep_budget(1_050), 0);
}

#[test]
fn sleep_budget_is_capped_while_converged() {
    let cfg = Config::default();
    let ctl = ControlLoop::new(&cfg, 900, 0, 1_000);
    // converged actuator, capture far out: the ceiling bounds the wait
    assert_eq!(ctl.sleep_budget(600), MAX_IDLE_SLEEP_MS);
}

#[test]
fn start_value_is_clamped_into_the_calibrated_range() {
    let cfg = Config::default();
    let low = ControlLoop::new(&cfg, 900, 0, 0);
    assert_eq!(low.current_value(), 47);
    let high = ControlLoop::new(&cfg, 900, 5_000, 0);
    assert_eq!(high.current_value(), 937);
    let mid = ControlLoop::new(&cfg, 900, 500, 0);
    assert_eq!(mid.current_value(), 500);
}

#[test]
fn bounded_phases_expire_exactly_on_time() {
    assert!(!duration_expired(0, 10_000_000, None));
    assert!(!duration_expired(0, 999, Some(1_000)));
    assert!(duration_expired(0, 1_000, Some(1_000)));
    assert!(duration_expired(500, 2_000, Some(1_000)));
}

#[test]
fn wall_clock_factor_is_one_of_the_two_multipliers() {
    let ta = TimeAdjuster::from_config(&Config::default());
    let f = ta.factor_now();
    assert!(f == 1_050_000 || f == 950_000);
}
