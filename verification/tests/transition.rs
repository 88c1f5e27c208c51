use smart_brightness::smooth_transition::{SmoothTransition, IDLE_WAIT_MS};

#[test]
fn step_is_clamped_between_one_and_max_step() {
    // |520 - 500| / 20 = 1 -> clamp(1, 1, 60) = 1
    let mut t = SmoothTransition::new(500, 50, 20, 60, 0);
    t.set_target(520, 1000);
    let r = t.update(50);
    assert_eq!(r, Some(501));

    // a large distance saturates at max_step
    let mut t = SmoothTransition::new(0, 50, 1, 60, 0);
    t.set_target(1000, 1000);
    assert_eq!(t.update(50), Some(60));

    // a zero distance still yields step 1
    let mut t = SmoothTransition::new(500, 50, 20, 60, 0);
    t.set_target(500, 1000);
    t.set_target(520, 1000);
    assert_eq!(t.update(50), Some(501));
}

#[test]
fn target_is_clamped_to_the_ceiling() {
    let mut t = SmoothTransition::new(500, 50, 20, 60, 0);
    t.set_target(2000, 1000);
    let mut now = 0u64;
    let mut last = 500u32;
    for _ in 0..200 {
        now += 50;
        if let Some(v) = t.update(now) {
            last = v;
        }
    }
    assert_eq!(last, 1000);
}

#[test]
fn updates_wait_for_the_interval() {
    let mut t = SmoothTransition::new(500, 50, 20, 60, 0);
    t.set_target(520, 1000);
    assert_eq!(t.update(0), None);
    assert_eq!(t.update(49), None);
    assert_eq!(t.update(50), Some(501));
    // the clock of the last applied step resets
    assert_eq!(t.update(99), None);
    assert_eq!(t.update(100), Some(502));
}

#[test]
fn converged_controller_does_nothing() {
    let mut t = SmoothTransition::new(500, 50, 20, 60, 0);
    assert_eq!(t.update(1_000_000), None);
    assert_eq!(t.current_value(), 500);
}

#[test]
fn convergence_is_monotone_and_exact() {
    let mut t = SmoothTransition::new(500, 50, 20, 60, 0);
    t.set_target(520, 1000);
    let mut now = 0u64;
    let mut prev = 500u32;
    let mut steps = 0usize;
    loop {
        now += 50;
        match t.update(now) {
            Some(v) => {
                assert!(v > prev, "moves upward only");
                assert!(v <= 520, "never overshoots");
                prev = v;
                steps += 1;
            }
            None => break,
        }
        assert!(steps <= 20, "reaches the target in finitely many steps");
    }
    assert_eq!(t.current_value(), 520);
    assert_eq!(steps, 20);
}

#[test]
fn downward_convergence_never_overshoots() {
    let mut t = SmoothTransition::new(600, 50, 20, 60, 0);
    t.set_target(500, 1000);
    // |500 - 600| / 20 = 5
    assert_eq!(t.update(50), Some(595));
    let mut now = 50u64;
    loop {
        now += 50;
        match t.update(now) {
            Some(v) => assert!(v >= 500),
            None => break,
        }
    }
    assert_eq!(t.current_value(), 500);
}

#[test]
fn last_move_is_truncated_to_the_distance() {
    let mut t = SmoothTransition::new(500, 50, 1, 60, 0);
    t.set_target(520, 1000);
    // step is 20; one move lands exactly on the target
    assert_eq!(t.update(50), Some(520));
    assert_eq!(t.update(100), None);
}

#[test]
fn wait_times_reflect_the_step_clock() {
    let mut t = SmoothTransition::new(500, 50, 20, 60, 0);
    assert_eq!(t.time_until_next_step(0), IDLE_WAIT_MS);
    t.set_target(520, 1000);
    assert_eq!(t.time_until_next_step(20), 30);
    assert_eq!(t.time_until_next_step(50), 0);
    assert_eq!(t.time_until_next_step(80), 0);
}

#[test]
fn peeking_does_not_advance_the_controller() {
    let mut t = SmoothTransition::new(500, 50, 20, 60, 0);
    t.set_target(520, 1000);
    assert_eq!(t.peek_update(50), Some(501));
    assert_eq!(t.current_value(), 500);
    assert_eq!(t.peek_update(50), Some(501));
    assert_eq!(t.update(50), Some(501));
    assert_eq!(t.current_value(), 501);
}

#[test]
fn zero_divisor_and_step_bound_are_lifted_to_one() {
    let mut t = SmoothTransition::new(0, 50, 0, 0, 0);
    t.set_target(100, 1000);
    // divisor and max_step both act as 1
    assert_eq!(t.update(50), Some(1));
}
