use voxel_index::performance::PerformanceController;

#[test]
fn no_decision_before_third_frame() {
    // 60 fps target; three 20 ms frames: the first two fall in the
    // warm-up, the third produces a decision.
    let mut c = PerformanceController::new(60_000);
    assert_eq!(c.update(20_000), None);
    assert_eq!(c.update(20_000), None);
    let r = c.update(20_000);
    assert!(r.is_some());
}

#[test]
fn emergency_scales_by_deficit() {
    // 50 fps measured against a 60 fps target: the emergency branch
    // fires on the third call and scales the step by 60/50.
    let mut c = PerformanceController::new(60_000);
    assert_eq!(c.update(20_000), None);
    assert_eq!(c.update(20_000), None);
    assert_eq!(c.update(20_000), Some(24_000));
    assert_eq!(c.get_current_voxel_size(), 24_000);
}

#[test]
fn emergency_caps_at_double() {
    // 25 fps against 60: the deficit factor 2.4 is capped at 2.
    let mut c = PerformanceController::new(60_000);
    assert_eq!(c.update(40_000), None);
    assert_eq!(c.update(40_000), None);
    assert_eq!(c.update(40_000), Some(40_000));
}

#[test]
fn emergency_caps_at_max_step() {
    let mut c = PerformanceController::new(60_000);
    c.update(40_000);
    c.update(40_000);
    assert_eq!(c.update(40_000), Some(40_000));
    assert_eq!(c.update(40_000), Some(50_000));
    // Already at the cap: the emergency branch still reports a value.
    assert_eq!(c.update(40_000), Some(50_000));
    assert_eq!(c.get_current_voxel_size(), 50_000);
}

#[test]
fn emergency_fires_regardless_of_stability() {
    // A comfortable 80 fps history, then one frame at half the target
    // rate: the very next call emits a strictly larger step.
    let mut c = PerformanceController::new(60_000);
    for _ in 0..10 {
        assert!(c.update(12_500).is_none());
    }
    let before = c.get_current_voxel_size();
    let r = c.update(33_333);
    assert!(r.is_some());
    assert!(r.unwrap() > before);
    assert_eq!(r, Some(40_000));
}

#[test]
fn sweet_spot_changes_nothing() {
    // 62.5 fps against a 60 fps target sits in the target..+20% band:
    // no adjustment, ever.
    let mut c = PerformanceController::new(60_000);
    for _ in 0..50 {
        assert_eq!(c.update(16_000), None);
    }
    assert_eq!(c.get_current_voxel_size(), 20_000);
}

#[test]
fn quality_improves_only_after_sixteen_stable_frames() {
    // 80 fps against 60 is well above the +20% band, but the step only
    // drops after more than 15 consecutive stable frames.
    let mut c = PerformanceController::new(60_000);
    for _ in 0..18 {
        assert_eq!(c.update(12_500), None);
    }
    // 19th call: stable count has reached 16.
    assert_eq!(c.update(12_500), Some(18_000));
    assert_eq!(c.get_current_voxel_size(), 18_000);
}

#[test]
fn increase_is_gentle_right_after_a_decrease() {
    let mut c = PerformanceController::new(60_000);
    for _ in 0..18 {
        assert_eq!(c.update(12_500), None);
    }
    assert_eq!(c.update(12_500), Some(18_000));
    // Now drift below target without tripping the emergency branch
    // (17.5 ms frames imply 57.1 fps, above the 95% threshold). The
    // window average crosses under the target on the ninth such frame.
    for _ in 0..8 {
        assert_eq!(c.update(17_500), None);
    }
    // Reversal right after a decrease: the gentle factor 1.05 applies
    // (damped, since fewer than 10 stable frames have passed).
    assert_eq!(c.update(17_500), Some(18_900));
}

#[test]
fn normal_increase_uses_damped_factor() {
    // Slightly below target from a fresh controller: factor 1.15
    // (0.3 scaled by the 0.5 damping) on the third call.
    let mut c = PerformanceController::new(60_000);
    assert_eq!(c.update(16_950), None);
    assert_eq!(c.update(16_950), None);
    assert_eq!(c.update(16_950), Some(23_000));
}

#[test]
fn undamped_increase_after_long_stability() {
    // A long stable run, then a drift below target: the full 1.3
    // factor applies (no damping, previous direction not Decrease).
    let mut c = PerformanceController::new(60_000);
    for _ in 0..50 {
        assert_eq!(c.update(16_000), None);
    }
    for _ in 0..4 {
        assert_eq!(c.update(17_500), None);
    }
    assert_eq!(c.update(17_500), Some(26_000));
}

#[test]
fn step_size_stays_in_band() {
    let mut c = PerformanceController::new(60_000);
    for i in 0..200u64 {
        let frame = if i % 2 == 0 { 1 } else { 1_000_000 };
        c.update(frame);
        let s = c.get_current_voxel_size();
        assert!((5_000..=50_000).contains(&s));
    }
}

#[test]
fn returned_value_matches_state() {
    let mut c = PerformanceController::new(60_000);
    for i in 0..40u64 {
        let frame = 10_000 + i * 1_000;
        if let Some(v) = c.update(frame) {
            assert_eq!(v, c.get_current_voxel_size());
        }
    }
}
