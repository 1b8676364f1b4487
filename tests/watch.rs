use plate_geometry::watch::should_debounce;

#[test]
fn first_change_is_never_skipped() {
    assert!(!should_debounce(None, 1_000, 500));
}

#[test]
fn change_inside_the_window_is_skipped() {
    assert!(should_debounce(Some(1_000), 1_499, 500));
    assert!(should_debounce(Some(1_000), 1_000, 500));
}

#[test]
fn change_at_or_after_the_window_is_handled() {
    assert!(!should_debounce(Some(1_000), 1_500, 500));
    assert!(!should_debounce(Some(1_000), 9_000, 500));
}

#[test]
fn clock_going_back_is_not_skipped() {
    assert!(!should_debounce(Some(2_000), 1_000, 500));
}
