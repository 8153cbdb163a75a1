use oxidizer::keyboard::{is_key_down_for_code, is_key_pressed_for_code, InputSnapshot};

#[test]
fn pressed_keys_are_found() {
    let snapshot = InputSnapshot { keys_pressed: vec![10, 20, 30], keys_down: vec![20] };
    assert!(is_key_pressed_for_code(&snapshot, 10));
    assert!(is_key_pressed_for_code(&snapshot, 30));
    assert!(!is_key_pressed_for_code(&snapshot, 40));
}

#[test]
fn down_keys_are_found() {
    let snapshot = InputSnapshot { keys_pressed: vec![10], keys_down: vec![20, 21] };
    assert!(is_key_down_for_code(&snapshot, 20));
    assert!(!is_key_down_for_code(&snapshot, 10));
}

#[test]
fn empty_snapshot_reports_nothing() {
    let snapshot = InputSnapshot { keys_pressed: vec![], keys_down: vec![] };
    assert!(!is_key_pressed_for_code(&snapshot, 0));
    assert!(!is_key_down_for_code(&snapshot, 0));
}
