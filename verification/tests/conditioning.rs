use smart_brightness::SCALE;
use smart_brightness::pipeline::{apply_circadian, apply_circadian_at, normalize_luma, update_brightness};
use smart_brightness::smoothing::Ema;
use smart_brightness::time_adjust::TimeAdjuster;
use smart_brightness::config::Config;

#[test]
fn first_sample_passes_through_unchanged() {
    for alpha in [1u32, 10_000, 150_000, 500_000, 999_999, 1_000_000] {
        let mut ema = Ema::new(alpha);
        assert_eq!(ema.update(66_666), 66_666);
    }
}

#[test]
fn second_sample_blends_exponentially() {
    let mut ema = Ema::new(150_000);
    assert_eq!(ema.update(500_000), 500_000);
    // 0.15 * 1.0 + 0.85 * 0.5 = 0.575
    assert_eq!(ema.update(1_000_000), 575_000);
}

#[test]
fn alpha_one_tracks_input_exactly() {
    let mut ema = Ema::new(1_000_000);
    ema.update(100_000);
    assert_eq!(ema.update(900_000), 900_000);
}

#[test]
fn oversized_alpha_is_clamped() {
    let mut ema = Ema::new(2_000_000);
    ema.update(0);
    // a clamped weight of 1.0 tracks the input exactly
    assert_eq!(ema.update(300_000), 300_000);
}

#[test]
fn normalization_rescales_into_unit_range() {
    // (0.10 - 0.05) / 0.75 = 0.0666..
    assert_eq!(normalize_luma(Some(50_000), Some(800_000), 100_000), 66_666);
}

#[test]
fn normalization_clamps_at_both_ends() {
    assert_eq!(normalize_luma(Some(50_000), Some(800_000), 20_000), 0);
    assert_eq!(normalize_luma(Some(50_000), Some(800_000), 900_000), SCALE);
    assert_eq!(normalize_luma(Some(50_000), Some(800_000), 800_000), SCALE);
}

#[test]
fn normalization_passes_through_without_bounds() {
    assert_eq!(normalize_luma(None, None, 123_456), 123_456);
    assert_eq!(normalize_luma(Some(50_000), None, 123_456), 123_456);
    assert_eq!(normalize_luma(None, Some(800_000), 123_456), 123_456);
}

#[test]
fn normalization_passes_through_inverted_bounds() {
    assert_eq!(normalize_luma(Some(800_000), Some(50_000), 123_456), 123_456);
    assert_eq!(normalize_luma(Some(400_000), Some(400_000), 123_456), 123_456);
}

fn wrapping_adjuster() -> TimeAdjuster {
    let mut cfg = Config::default();
    cfg.circadian_day_start_hour = 18;
    cfg.circadian_night_start_hour = 6;
    TimeAdjuster::from_config(&cfg)
}

#[test]
fn circadian_day_window_wraps_midnight() {
    let ta = wrapping_adjuster();
    assert!(ta.is_day(20));
    assert!(ta.is_day(2));
    assert!(!ta.is_day(10));
    assert!(ta.is_day(18));
    assert!(!ta.is_day(6));
}

#[test]
fn circadian_plain_window_does_not_wrap() {
    let ta = TimeAdjuster::from_config(&Config::default());
    assert!(ta.is_day(6));
    assert!(ta.is_day(12));
    assert!(!ta.is_day(18));
    assert!(!ta.is_day(2));
}

#[test]
fn circadian_scales_by_the_selected_multiplier() {
    let ta = TimeAdjuster::from_config(&Config::default());
    // day: 0.066666 * 1.05
    assert_eq!(ta.adjust_for_hour(66_666, 12), 69_999);
    // night: 0.066666 * 0.95
    assert_eq!(ta.adjust_for_hour(66_666, 22), 63_332);
}

#[test]
fn circadian_clamps_to_one() {
    let ta = TimeAdjuster::from_config(&Config::default());
    assert_eq!(ta.adjust_for_hour(SCALE, 12), SCALE);
}

#[test]
fn circadian_disabled_passes_through() {
    let ta = TimeAdjuster::from_config(&Config::default());
    assert_eq!(apply_circadian_at(false, &ta, 66_666, 12), 66_666);
    assert_eq!(apply_circadian(false, &ta, 66_666), 66_666);
}

#[test]
fn circadian_now_uses_one_of_the_two_multipliers() {
    let ta = TimeAdjuster::from_config(&Config::default());
    let r = apply_circadian(true, &ta, 100_000);
    assert!(r == 105_000 || r == 95_000);
}

#[test]
fn dead_band_suppresses_small_movement() {
    let mut has = true;
    let mut last = 500_000u32;
    let r = update_brightness(505_000, &mut has, &mut last, 10_000, 47, 937, 900);
    assert_eq!(r, None);
    assert!(has);
    assert_eq!(last, 505_000);
}

#[test]
fn dead_band_lets_large_movement_through() {
    let mut has = true;
    let mut last = 500_000u32;
    let r = update_brightness(520_000, &mut has, &mut last, 10_000, 47, 937, 900);
    assert!(r.is_some());
    assert_eq!(last, 520_000);
}

#[test]
fn dead_band_does_not_apply_to_the_first_sample() {
    let mut has = false;
    let mut last = 0u32;
    let r = update_brightness(1_000, &mut has, &mut last, 10_000, 47, 937, 10_000);
    assert!(r.is_some());
    assert!(has);
}

#[test]
fn mapping_respects_the_hardware_ceiling() {
    let mut has = false;
    let mut last = 0u32;
    // full brightness maps to real_max 937, but the device caps at 900
    let r = update_brightness(SCALE, &mut has, &mut last, 10_000, 47, 937, 900);
    assert_eq!(r, Some(900));
}

#[test]
fn mapping_reaches_real_max_under_a_high_ceiling() {
    let mut has = false;
    let mut last = 0u32;
    let r = update_brightness(SCALE, &mut has, &mut last, 10_000, 47, 937, 10_000);
    assert_eq!(r, Some(937));
}

#[test]
fn mapping_rounds_into_the_calibrated_range() {
    let mut has = false;
    let mut last = 0u32;
    // round(0.070 * 890) + 47 = 109
    let r = update_brightness(70_000, &mut has, &mut last, 10_000, 47, 937, 10_000);
    assert_eq!(r, Some(109));
    let mut has2 = false;
    let mut last2 = 0u32;
    let r2 = update_brightness(0, &mut has2, &mut last2, 10_000, 47, 937, 10_000);
    assert_eq!(r2, Some(47));
}
