//! Supervision of the listening session.
//!
//! The orchestrator decides how to run the monitors — inline for a single
//! device, one task per device otherwise — and tracks how many monitors are
//! still alive. The death of one monitor among several is absorbed; only the
//! death of the last one escalates, and it escalates exactly once.

use vstd::prelude::*;

verus! {

/// How the listening session runs, decided once from the number of
/// discovered keyboards: nothing to run, one monitor on the calling thread,
/// or one independent task per device.
#[derive(Clone, Copy, PartialEq, Eq, Structural, Debug)]
pub enum Strategy {
    NoDevices,
    Inline,
    FanOut { devices: usize },
}

/// The session's liveness state: how many device monitors have not yet
/// failed. The count never increases; it is set once at start and each
/// monitor failure takes one from it.
pub struct DeviceSupervisor {
    pub active: usize,
}

/// The monitors still alive after some failures among `devices` initial
/// ones.
pub open spec fn remaining_after(devices: nat, failures: nat) -> int {
    devices - failures
}

/// Whether the session escalates on the given failure: exactly when that
/// failure is the one that leaves no monitor alive.
pub open spec fn escalates_on(devices: nat, failures: nat) -> bool {
    1 <= failures <= devices && remaining_after(devices, failures) == 0
}

/// Pick the strategy for a device count.
pub fn choose_strategy(device_count: usize) -> (s: Strategy)
    ensures
        device_count == 0 ==> s == Strategy::NoDevices,
        device_count == 1 ==> s == Strategy::Inline,
        device_count > 1 ==> s == (Strategy::FanOut { devices: device_count }),
{
    if device_count == 0 {
        Strategy::NoDevices
    } else if device_count == 1 {
        Strategy::Inline
    } else {
        Strategy::FanOut { devices: device_count }
    }
}

impl DeviceSupervisor {
    /// Start supervising the given number of device monitors.
    pub fn new(device_count: usize) -> (s: Self)
        ensures
            s.active == device_count,
    {
        DeviceSupervisor { active: device_count }
    }

    /// Record that one monitor failed. The failure is absorbed — the count
    /// just drops by one — unless it was the last monitor alive, in which
    /// case the call says to escalate.
    pub fn record_device_failure(&mut self) -> (escalate: bool)
        requires
            old(self).active > 0,
        ensures
            final(self).active == old(self).active - 1,
            escalate <==> final(self).active == 0,
            escalate <==> old(self).active == 1,
    {
        self.active = self.active - 1;
        self.active == 0
    }
}

/// With any number of devices, at most one failure escalates: two failures
/// that both leave no monitor alive are the same failure.
pub proof fn lemma_escalates_at_most_once(devices: nat, j: nat, k: nat)
    requires
        escalates_on(devices, j),
        escalates_on(devices, k),
    ensures
        j == k,
{
}

/// With at least one device, the session escalates on the last failure and
/// on no earlier one: killing devices one at a time keeps the session alive
/// until the final kill.
pub proof fn lemma_escalates_on_last_failure(devices: nat)
    requires
        devices >= 1,
    ensures
        escalates_on(devices, devices),
        forall|k: nat| 1 <= k < devices ==> !escalates_on(devices, k),
{
}

} // verus!
