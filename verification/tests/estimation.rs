use smart_brightness::SCALE;
use smart_brightness::estimator::{measure_frame_luma, mean_luma};

// A 2x2 frame, two bytes per pixel: luma samples sit at bytes 0, 2, 4, 6.
// Center (1,1); max squared radius 2. Weights: corner pixel (0,0) carries
// 0.2, the two at distance 1 carry 0.6, the center carries 1.0.
fn frame_2x2(y: [u8; 4]) -> Vec<u8> {
    vec![y[0], 0, y[1], 0, y[2], 0, y[3], 0]
}

#[test]
fn weighted_average_favors_the_center() {
    let buf = frame_2x2([100, 200, 50, 255]);
    // (100*0.2 + 200*0.6 + 50*0.6 + 255*1.0) / (0.2+0.6+0.6+1.0) / 255
    assert_eq!(measure_frame_luma(&buf, 2, 2, false), 694_444);
}

#[test]
fn half_precision_skips_every_other_sample() {
    let buf = frame_2x2([100, 200, 50, 255]);
    // only pixels 0 and 2 are walked: (100*0.2 + 50*0.6) / 0.8 / 255
    assert_eq!(measure_frame_luma(&buf, 2, 2, true), 245_098);
}

#[test]
fn uniform_frames_read_their_own_level() {
    let white = frame_2x2([255, 255, 255, 255]);
    assert_eq!(measure_frame_luma(&white, 2, 2, false), SCALE);
    let black = frame_2x2([0, 0, 0, 0]);
    assert_eq!(measure_frame_luma(&black, 2, 2, false), 0);
}

#[test]
fn empty_frame_reads_zero() {
    let buf: Vec<u8> = vec![];
    assert_eq!(measure_frame_luma(&buf, 640, 400, false), 0);
}

#[test]
fn short_buffer_stops_at_its_end() {
    // three bytes carry two luma samples (the second chunk is cut short)
    let buf = vec![100u8, 0, 200];
    // (100*0.2 + 200*0.6) / 0.8 / 255
    assert_eq!(measure_frame_luma(&buf, 2, 2, false), 686_274);
}

#[test]
fn small_grid_stops_before_the_buffer_ends() {
    // a 1x1 frame walks a single sample whatever the buffer holds
    let buf = vec![10u8, 0, 20, 0, 30, 0];
    // 10 / 255
    assert_eq!(measure_frame_luma(&buf, 1, 1, false), 39_215);
}

#[test]
fn mean_of_estimates_is_exact() {
    assert_eq!(mean_luma(&vec![66_666, 0]), 33_333);
    assert_eq!(mean_luma(&vec![700_000]), 700_000);
    assert_eq!(mean_luma(&vec![100_000, 200_000, 300_000]), 200_000);
}

#[test]
fn mean_of_no_estimates_is_zero() {
    assert_eq!(mean_luma(&vec![]), 0);
}
