use voxel_index::performance_monitor::PerformanceMonitor;
use voxel_index::vec3::Vec3;

#[test]
fn current_fps_from_mean_frame_time() {
    let mut m = PerformanceMonitor::new();
    m.record_frame(20_000, 20_000, None);
    m.record_frame(20_000, 40_000, None);
    m.record_frame(20_000, 60_000, None);
    // 20 ms mean frame time: 50 fps.
    assert_eq!(m.get_current_fps(), 50_000);
}

#[test]
fn current_fps_zero_before_first_frame() {
    let m = PerformanceMonitor::new();
    assert_eq!(m.get_current_fps(), 0);
}

#[test]
fn average_fps_over_elapsed_time() {
    let mut m = PerformanceMonitor::new();
    m.record_frame(20_000, 20_000, None);
    m.record_frame(20_000, 40_000, None);
    m.record_frame(20_000, 60_000, None);
    assert_eq!(m.get_average_fps(60_000), 50_000);
    assert_eq!(m.get_average_fps(0), 0);
    assert_eq!(m.get_total_frames(), 3);
}

#[test]
fn window_keeps_last_120_frames() {
    let mut m = PerformanceMonitor::new();
    m.record_frame(1_000, 1_000, None);
    for i in 0..120u64 {
        m.record_frame(2_000, 2_000 + i, None);
    }
    let stats = m.report_stats(500_000);
    // The single 1 ms frame was evicted; only 2 ms frames remain.
    assert_eq!(stats.min_frame_us, Some(2_000));
    assert_eq!(stats.max_frame_us, Some(2_000));
    assert_eq!(stats.total_frames, 121);
}

#[test]
fn fps_history_rolls_over_each_second() {
    let mut m = PerformanceMonitor::new();
    m.record_frame(100_000, 100_000, None);
    m.record_frame(100_000, 200_000, None);
    m.record_frame(100_000, 300_000, None);
    // Crossing into second 1 closes second 0 with its frame count.
    m.record_frame(100_000, 1_500_000, None);
    assert_eq!(m.get_fps_history().len(), 1);
    assert_eq!(m.get_fps_history()[0], (0, 4));
    assert_eq!(m.get_last_second(), 1);
    assert_eq!(m.get_frames_in_current_second(), 0);
    m.record_frame(100_000, 1_600_000, None);
    assert_eq!(m.get_frames_in_current_second(), 1);
}

#[test]
fn stats_track_min_and_max() {
    let mut m = PerformanceMonitor::new();
    m.record_frame(30_000, 30_000, None);
    m.record_frame(10_000, 40_000, None);
    m.record_frame(20_000, 60_000, None);
    let stats = m.report_stats(60_000);
    assert_eq!(stats.min_frame_us, Some(10_000));
    assert_eq!(stats.max_frame_us, Some(30_000));
    assert_eq!(stats.total_frames, 3);
    assert_eq!(stats.average_milli_fps, 50_000);
    assert_eq!(stats.current_milli_fps, 50_000);
}

#[test]
fn stats_before_first_frame() {
    let m = PerformanceMonitor::new();
    let stats = m.report_stats(0);
    assert_eq!(stats.total_frames, 0);
    assert_eq!(stats.average_milli_fps, 0);
    assert_eq!(stats.current_milli_fps, 0);
    assert_eq!(stats.min_frame_us, None);
    assert_eq!(stats.max_frame_us, None);
}

#[test]
fn camera_positions_are_optional() {
    let mut m = PerformanceMonitor::new();
    m.record_frame(16_000, 16_000, Some(Vec3::new(1, 2, 3)));
    m.record_frame(16_000, 32_000, None);
    m.record_frame(16_000, 48_000, Some(Vec3::new(-4, 5, -6)));
    let cams = m.get_camera_positions();
    assert_eq!(cams.len(), 2);
    assert_eq!(cams[0], (16_000, Vec3::new(1, 2, 3)));
    assert_eq!(cams[1], (48_000, Vec3::new(-4, 5, -6)));
}
