//! Event records emitted on the helper's output stream, and the per-device
//! monitoring step that produces them from raw input events.

use vstd::prelude::*;
use vstd::string::*;

use crate::keys;

verus! {

/// Whether a key transition is a press or a release.
#[derive(Clone, Copy, PartialEq, Eq, Structural, Debug)]
pub enum KeyAction {
    Press,
    Release,
}

/// The terminal and near-terminal conditions reported on the event stream.
#[derive(Clone, Copy, PartialEq, Eq, Structural, Debug)]
pub enum ErrorKind {
    PermissionDenied,
    NoKeyboardFound,
    AllDevicesFailed,
}

/// A point in time, as whole seconds and subsecond nanoseconds since the Unix
/// epoch. The clock is read outside the library; the library only carries the
/// value into the records it builds.
#[derive(Clone, Copy, PartialEq, Eq, Structural, Debug)]
pub struct Timestamp {
    pub secs: u64,
    pub nanos: u32,
}

/// How the raw value of a key-type input event is classified: 1 is a press,
/// 0 is a release, and everything else (2 is the autorepeat signal) is
/// skipped.
pub open spec fn classify_value_spec(value: i32) -> Option<KeyAction> {
    if value == 1 {
        Some(KeyAction::Press)
    } else if value == 0 {
        Some(KeyAction::Release)
    } else {
        None
    }
}

/// Classify the raw value of a key-type input event.
pub fn classify_value(value: i32) -> (r: Option<KeyAction>)
    ensures
        r == classify_value_spec(value),
{
    if value == 1 {
        Some(KeyAction::Press)
    } else if value == 0 {
        Some(KeyAction::Release)
    } else {
        None
    }
}

/// A key press or release observed on one device, ready to be serialized and
/// emitted. `data` is the nested JSON-encoded payload the consumer expects:
/// the canonical name wrapped as `{"key":"<name>"}`.
pub struct KeyEvent {
    pub action: KeyAction,
    pub name: String,
    pub time: Timestamp,
    pub data: String,
}

/// A terminal or near-terminal condition, emitted on the same output channel
/// as key events. `data` is the nested JSON-encoded payload
/// `{"error":"<kind>","message":"<text>"}`.
pub struct ErrorEvent {
    pub kind: ErrorKind,
    pub message: String,
    pub time: Timestamp,
    pub data: String,
}

/// The nested payload of a key event.
pub open spec fn key_data_spec(name: Seq<char>) -> Seq<char> {
    "{\"key\":\""@ + name + "\"}"@
}

/// The nested payload of an error event.
pub open spec fn error_data_spec(kind: Seq<char>, message: Seq<char>) -> Seq<char> {
    "{\"error\":\""@ + kind + "\",\"message\":\""@ + message + "\"}"@
}

/// The label under which an error kind is reported.
pub open spec fn kind_label_spec(kind: ErrorKind) -> Seq<char> {
    match kind {
        ErrorKind::PermissionDenied => "PermissionDenied"@,
        ErrorKind::NoKeyboardFound => "NoKeyboardFound"@,
        ErrorKind::AllDevicesFailed => "AllDevicesFailed"@,
    }
}

/// The operator-facing message that accompanies each error kind.
pub open spec fn kind_message_spec(kind: ErrorKind) -> Seq<char> {
    match kind {
        ErrorKind::PermissionDenied => "User must be in 'input' group. Run: sudo usermod -aG input $USER, then log out and back in."@,
        ErrorKind::NoKeyboardFound => "No keyboard device found in /dev/input/"@,
        ErrorKind::AllDevicesFailed => "All keyboard devices have stopped"@,
    }
}

/// A key event is well formed when its name is non-empty and its payload is
/// the name's wrapping.
pub open spec fn key_event_wf(ev: KeyEvent) -> bool {
    ev.name@.len() > 0 && ev.data@ == key_data_spec(ev.name@)
}

/// The label under which an error kind is reported.
pub fn kind_label(kind: ErrorKind) -> (r: &'static str)
    ensures
        r@ == kind_label_spec(kind),
{
    match kind {
        ErrorKind::PermissionDenied => "PermissionDenied",
        ErrorKind::NoKeyboardFound => "NoKeyboardFound",
        ErrorKind::AllDevicesFailed => "AllDevicesFailed",
    }
}

/// The operator-facing message that accompanies each error kind.
pub fn kind_message(kind: ErrorKind) -> (r: &'static str)
    ensures
        r@ == kind_message_spec(kind),
{
    match kind {
        ErrorKind::PermissionDenied => "User must be in 'input' group. Run: sudo usermod -aG input $USER, then log out and back in.",
        ErrorKind::NoKeyboardFound => "No keyboard device found in /dev/input/",
        ErrorKind::AllDevicesFailed => "All keyboard devices have stopped",
    }
}

/// Wrap a key name as the nested JSON payload of a key event.
pub fn key_data(name: &str) -> (r: String)
    ensures
        r@ == key_data_spec(name@),
{
    let mut r = String::from_str("{\"key\":\"");
    r.append(name);
    r.append("\"}");
    r
}

/// Wrap an error label and message as the nested JSON payload of an error
/// event.
fn error_data_json(kind: &str, message: &str) -> (r: String)
    ensures
        r@ == error_data_spec(kind@, message@),
{
    let mut r = String::from_str("{\"error\":\"");
    r.append(kind);
    r.append("\",\"message\":\"");
    r.append(message);
    r.append("\"}");
    r
}

/// Build the error event for a condition, carrying the kind's canonical
/// message and payload.
pub fn error_event(kind: ErrorKind, time: Timestamp) -> (ev: ErrorEvent)
    ensures
        ev.kind == kind,
        ev.message@ == kind_message_spec(kind),
        ev.time == time,
        ev.data@ == error_data_spec(kind_label_spec(kind), kind_message_spec(kind)),
{
    let message = kind_message(kind);
    let data = error_data_json(kind_label(kind), message);
    ErrorEvent { kind, message: String::from_str(message), time, data }
}

/// One step of a device monitor: turn one raw input event of the key type
/// into the record to emit, or into nothing.
///
/// A value of 1 yields a press, a value of 0 a release, and any other value —
/// 2 is the autorepeat signal — yields no record at all, so a repeat never
/// becomes a key event. The record carries the canonical name of the key,
/// which is never empty, and the matching payload.
pub fn monitor_step(code: u16, value: i32, time: Timestamp) -> (r: Option<KeyEvent>)
    ensures
        match r {
            Some(ev) => {
                &&& classify_value_spec(value) == Some(ev.action)
                &&& ev.name@ == keys::canonical_of(code)
                &&& ev.time == time
                &&& ev.data@ == key_data_spec(keys::canonical_of(code))
                &&& key_event_wf(ev)
            },
            None => classify_value_spec(value) is None,
        },
        value == 2 ==> r is None,
{
    match classify_value(value) {
        Some(action) => {
            let name = keys::translate(code);
            let data = key_data(name.as_str());
            Some(KeyEvent { action, name, time, data })
        },
        None => None,
    }
}

} // verus!
