//! Event records: how raw input events become key events, and how error
//! conditions are reported.

use keyhelper::events::{
    classify_value, error_event, monitor_step, ErrorKind, KeyAction, Timestamp,
};

fn at(secs: u64) -> Timestamp {
    Timestamp { secs, nanos: 0 }
}

#[test]
fn value_one_is_a_press() {
    assert_eq!(classify_value(1), Some(KeyAction::Press));
}

#[test]
fn value_zero_is_a_release() {
    assert_eq!(classify_value(0), Some(KeyAction::Release));
}

#[test]
fn repeat_value_never_becomes_a_key_event() {
    assert_eq!(classify_value(2), None);
    assert!(monitor_step(30, 2, at(5)).is_none());
}

#[test]
fn other_values_are_skipped_too() {
    for value in [-1, 3, 4, 100] {
        assert_eq!(classify_value(value), None);
        assert!(monitor_step(30, value, at(5)).is_none());
    }
}

#[test]
fn press_then_release_of_letter_a() {
    let press = monitor_step(30, 1, at(10)).expect("press must yield an event");
    let release = monitor_step(30, 0, at(11)).expect("release must yield an event");
    assert_eq!(press.action, KeyAction::Press);
    assert_eq!(release.action, KeyAction::Release);
    assert_eq!(press.name, "KeyA");
    assert_eq!(release.name, "KeyA");
    assert_eq!(press.data, "{\"key\":\"KeyA\"}");
    assert_eq!(release.data, "{\"key\":\"KeyA\"}");
    assert_eq!(press.time, Timestamp { secs: 10, nanos: 0 });
}

#[test]
fn key_event_payload_decodes_as_json() {
    let ev = monitor_step(28, 1, at(0)).unwrap();
    let v: serde_json::Value = serde_json::from_str(&ev.data).expect("payload must be JSON");
    assert_eq!(v["key"], "Return");
}

#[test]
fn permission_denied_error_event() {
    let ev = error_event(ErrorKind::PermissionDenied, at(7));
    assert_eq!(ev.kind, ErrorKind::PermissionDenied);
    assert_eq!(
        ev.message,
        "User must be in 'input' group. Run: sudo usermod -aG input $USER, then log out and back in."
    );
    assert_eq!(
        ev.data,
        "{\"error\":\"PermissionDenied\",\"message\":\"User must be in 'input' group. Run: sudo usermod -aG input $USER, then log out and back in.\"}"
    );
    assert_eq!(ev.time, at(7));
}

#[test]
fn no_keyboard_error_event() {
    let ev = error_event(ErrorKind::NoKeyboardFound, at(0));
    assert_eq!(ev.message, "No keyboard device found in /dev/input/");
    assert_eq!(
        ev.data,
        "{\"error\":\"NoKeyboardFound\",\"message\":\"No keyboard device found in /dev/input/\"}"
    );
}

#[test]
fn all_devices_failed_error_event() {
    let ev = error_event(ErrorKind::AllDevicesFailed, at(0));
    assert_eq!(ev.message, "All keyboard devices have stopped");
    assert_eq!(
        ev.data,
        "{\"error\":\"AllDevicesFailed\",\"message\":\"All keyboard devices have stopped\"}"
    );
}

#[test]
fn error_event_payload_decodes_as_json() {
    let ev = error_event(ErrorKind::AllDevicesFailed, at(0));
    let v: serde_json::Value = serde_json::from_str(&ev.data).expect("payload must be JSON");
    assert_eq!(v["error"], "AllDevicesFailed");
    assert_eq!(v["message"], "All keyboard devices have stopped");
}
