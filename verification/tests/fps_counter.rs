use double_pendulum::fps::FPS;

#[test]
fn new_counter_is_empty() {
    let c = FPS::new(64);
    assert_eq!(c.frame(), 0);
    assert_eq!(c.fps(), 0);
    assert!(c.frame_times.is_empty());
}

#[test]
fn update_counts_frames_and_keeps_the_window_bounded() {
    let mut c = FPS::new(2);
    c.update(0);
    c.update(10);
    c.update(20);
    assert_eq!(c.frame(), 3);
    assert_eq!(c.frame_times, vec![10, 20]);
}

#[test]
fn fps_is_frames_per_spanned_second() {
    let mut c = FPS::new(64);
    c.update(0);
    c.update(500);
    c.update(1000);
    // three frames over one second
    assert_eq!(c.fps(), 3);
}

#[test]
fn fps_truncates_the_quotient() {
    let mut c = FPS::new(64);
    c.update(0);
    c.update(300);
    // 2 * 1000 / 300 = 6.66..., truncated
    assert_eq!(c.fps(), 6);
}

#[test]
fn fps_is_zero_without_a_time_span() {
    let mut c = FPS::new(64);
    c.update(100);
    assert_eq!(c.fps(), 0);
    c.update(100);
    // two readings, zero elapsed milliseconds
    assert_eq!(c.fps(), 0);
    // a clock that stepped backwards reads as zero as well
    c.update(50);
    assert_eq!(c.fps(), 0);
}

#[test]
fn eviction_moves_the_window_forward() {
    let mut c = FPS::new(3);
    c.update(0);
    c.update(1000);
    c.update(2000);
    assert_eq!(c.fps(), 1);
    // the oldest reading leaves; the window now spans 1000..3000
    c.update(3000);
    assert_eq!(c.frame_times, vec![1000, 2000, 3000]);
    assert_eq!(c.fps(), 1);
    assert_eq!(c.frame(), 4);
}
