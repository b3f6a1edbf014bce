use platformer::ExitKeys;

#[test]
fn single_press_of_held_chord_exits() {
    let mut keys = ExitKeys::new(500_000, 1);
    assert!(!keys.exit_system(16_667, false, 1));
    assert_eq!(keys.count, 0);
    assert!(!keys.exit_system(16_667, true, 0));
    assert!(keys.exit_system(16_667, true, 1));
    assert_eq!(keys.count, 1);
}

#[test]
fn presses_count_within_the_window() {
    let mut keys = ExitKeys::new(100, 3);
    assert!(!keys.exit_system(10, true, 2));
    assert_eq!(keys.count, 2);
    assert!(keys.exit_system(10, true, 1));
    assert_eq!(keys.count, 3);
}

#[test]
fn window_running_out_clears_the_count() {
    let mut keys = ExitKeys::new(100, 3);
    assert!(!keys.exit_system(10, true, 2));
    assert!(!keys.exit_system(90, true, 0));
    assert_eq!(keys.count, 0);
    assert_eq!(keys.reset_timer.elapsed, 0);
    assert!(!keys.exit_system(10, true, 1));
    assert_eq!(keys.count, 1);
}
