use tabify_explorer::detector::{
    classify_shell_message, is_window_object_event, should_send_event, EventDebouncer,
    ShellMessageKind,
};

#[test]
fn debounce_same_window() {
    let mut d = EventDebouncer::new();
    assert!(should_send_event(&mut d, 10, 1000));
    assert!(!should_send_event(&mut d, 10, 1100));
    assert!(!should_send_event(&mut d, 10, 1299));
    assert!(should_send_event(&mut d, 10, 1300));
    assert_eq!(d.last, Some((10, 1300)));
}

#[test]
fn debounce_other_window_passes() {
    let mut d = EventDebouncer::new();
    assert!(should_send_event(&mut d, 10, 1000));
    assert!(should_send_event(&mut d, 11, 1001));
    assert!(should_send_event(&mut d, 10, 1002));
    assert!(!should_send_event(&mut d, 10, 1003));
}

#[test]
fn debounce_clock_backwards_counts_as_zero() {
    let mut d = EventDebouncer { last: Some((5, 2000)) };
    assert!(!should_send_event(&mut d, 5, 1000));
    assert_eq!(d.last, Some((5, 2000)));
}

#[test]
fn event_filters() {
    assert!(is_window_object_event(0, 0, 42));
    assert!(!is_window_object_event(1, 0, 42));
    assert!(!is_window_object_event(0, 3, 42));
    assert!(!is_window_object_event(0, 0, 0));
    assert_eq!(classify_shell_message(0, 0, 1), ShellMessageKind::Other);
    assert_eq!(classify_shell_message(0xC123, 0xC124, 1), ShellMessageKind::Other);
    assert_eq!(classify_shell_message(0xC123, 0xC123, 1), ShellMessageKind::WindowCreated);
    assert_eq!(classify_shell_message(0xC123, 0xC123, 2), ShellMessageKind::ShellEvent);
    assert_eq!(
        classify_shell_message(0xC123, 0xC123, 0x1_0000_0001usize),
        ShellMessageKind::WindowCreated
    );
}
