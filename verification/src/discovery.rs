//! Classification of input devices and the outcome of a device scan.
//!
//! The scan itself — listing the input-device directory, opening each entry,
//! reading its capability set — happens outside the library. The library
//! decides which directory entries are worth probing, which capability sets
//! belong to keyboards, folds the per-device results, and fixes how the scan
//! ends when nothing could be opened.

use vstd::prelude::*;
use vstd::string::*;

use crate::events::ErrorKind;

verus! {

/// Why a device scan failed as a whole.
#[derive(Clone, Copy, PartialEq, Eq, Structural, Debug)]
pub enum DiscoveryError {
    PermissionDenied,
    NoKeyboardFound,
}

/// Whether a directory entry's name begins with `event`: only such entries
/// are input-event devices worth probing.
pub open spec fn has_event_prefix(s: Seq<char>) -> bool {
    s.len() >= 5 && s.subrange(0, 5) == "event"@
}

/// A capability set belongs to a keyboard when it supports at least one key
/// of a small probe set: the letter A (code 30), the space key (57), either
/// control key (29, 97) or either alt key (56, 100). The probe tolerates
/// keyboards missing some keys while excluding mice and pure
/// consumer-control devices.
pub open spec fn keyboard_capabilities(supported: Seq<u16>) -> bool {
    ||| supported.contains(30)
    ||| supported.contains(57)
    ||| supported.contains(29)
    ||| supported.contains(97)
    ||| supported.contains(56)
    ||| supported.contains(100)
}

/// What a device scan has seen so far: how many keyboards were opened, and
/// whether any device failed to open for want of permission. Open failures
/// of other kinds are skipped and leave no trace here.
pub struct ScanState {
    pub keyboards: usize,
    pub permission_denied: bool,
}

/// Whether a directory entry names an input-event device.
pub fn is_event_entry(name: &str) -> (r: bool)
    ensures
        r == has_event_prefix(name@),
{
    let n = name.unicode_len();
    if n >= 5 && name.get_char(0) == 'e' && name.get_char(1) == 'v' && name.get_char(2) == 'e'
        && name.get_char(3) == 'n' && name.get_char(4) == 't' {
        proof {
            reveal_strlit("event");
            assert(name@.subrange(0, 5) =~= "event"@);
        }
        true
    } else {
        proof {
            reveal_strlit("event");
            if has_event_prefix(name@) {
                assert(name@.subrange(0, 5)[0] == name@[0]);
                assert(name@.subrange(0, 5)[1] == name@[1]);
                assert(name@.subrange(0, 5)[2] == name@[2]);
                assert(name@.subrange(0, 5)[3] == name@[3]);
                assert(name@.subrange(0, 5)[4] == name@[4]);
                assert(false);
            }
        }
        false
    }
}

/// Whether a list of key codes holds a given code.
fn contains_code(supported: &Vec<u16>, code: u16) -> (r: bool)
    ensures
        r == supported@.contains(code),
{
    let mut i: usize = 0;
    while i < supported.len()
        invariant
            i <= supported@.len(),
            forall|j: int| 0 <= j < i ==> supported@[j] != code,
        decreases supported@.len() - i,
    {
        if supported[i] == code {
            proof {
                assert(supported@[i as int] == code);
            }
            return true;
        }
        i += 1;
    }
    false
}

/// Classify a device by the key codes it claims to support.
pub fn is_keyboard(supported: &Vec<u16>) -> (r: bool)
    ensures
        r == keyboard_capabilities(supported@),
{
    contains_code(supported, 30) || contains_code(supported, 57) || contains_code(supported, 29)
        || contains_code(supported, 97) || contains_code(supported, 56) || contains_code(
        supported,
        100,
    )
}

impl ScanState {
    /// A scan that has seen nothing yet.
    pub fn new() -> (s: Self)
        ensures
            s.keyboards == 0,
            !s.permission_denied,
    {
        ScanState { keyboards: 0, permission_denied: false }
    }

    /// Record one device that opened and classified as a keyboard.
    pub fn note_keyboard(&mut self)
        requires
            old(self).keyboards < usize::MAX,
        ensures
            final(self).keyboards == old(self).keyboards + 1,
            final(self).permission_denied == old(self).permission_denied,
    {
        self.keyboards = self.keyboards + 1;
    }

    /// Record one device that failed to open. Only a permission-denied
    /// failure is remembered; any other failure is skipped silently.
    pub fn note_open_failure(&mut self, permission_denied: bool)
        ensures
            final(self).keyboards == old(self).keyboards,
            final(self).permission_denied == (old(self).permission_denied || permission_denied),
    {
        if permission_denied {
            self.permission_denied = true;
        }
    }
}

/// How a finished scan ends: the keyboard count when at least one keyboard
/// opened; otherwise a permission-denied failure if one was recorded, and a
/// no-keyboard failure if none was.
pub fn discovery_outcome(scan: &ScanState) -> (r: Result<usize, DiscoveryError>)
    ensures
        scan.keyboards > 0 ==> r == Ok::<usize, DiscoveryError>(scan.keyboards),
        scan.keyboards == 0 && scan.permission_denied ==> r == Err::<usize, DiscoveryError>(
            DiscoveryError::PermissionDenied,
        ),
        scan.keyboards == 0 && !scan.permission_denied ==> r == Err::<usize, DiscoveryError>(
            DiscoveryError::NoKeyboardFound,
        ),
{
    if scan.keyboards > 0 {
        Ok(scan.keyboards)
    } else if scan.permission_denied {
        Err(DiscoveryError::PermissionDenied)
    } else {
        Err(DiscoveryError::NoKeyboardFound)
    }
}

/// The error kind under which a discovery failure is reported on the event
/// stream.
pub fn discovery_error_kind(e: DiscoveryError) -> (k: ErrorKind)
    ensures
        e == DiscoveryError::PermissionDenied ==> k == ErrorKind::PermissionDenied,
        e == DiscoveryError::NoKeyboardFound ==> k == ErrorKind::NoKeyboardFound,
{
    match e {
        DiscoveryError::PermissionDenied => ErrorKind::PermissionDenied,
        DiscoveryError::NoKeyboardFound => ErrorKind::NoKeyboardFound,
    }
}

} // verus!
