//! State of the firmware update process.
use vstd::prelude::*;

verus! {

/// Current state of the firmware update process.
#[derive(Debug, Clone, Copy, PartialEq, Eq, Structural)]
pub enum FwUpdateState {
    /// None in progress.
    Idle,
    /// Firmware update in progress.
    /// Contains the number of ticks that have passed.
    InProgress(u8),
    /// Firmware update has failed and the device is in an unknown state.
    Recovery,
}

impl FwUpdateState {
    /// Check if the firmware update is in progress.
    pub fn in_progress(&self) -> (result: bool)
        ensures
            result == (*self is InProgress || *self is Recovery),
    {
        matches!(self, FwUpdateState::InProgress(_) | FwUpdateState::Recovery)
    }

    /// Whether one more tick can be counted.
    pub open spec fn countable(self) -> bool {
        self matches FwUpdateState::InProgress(ticks) ==> ticks < u8::MAX
    }

    /// Whether the tick count, if there is one, has not reached the timeout.
    /// A count of zero is within any timeout: that is where an update starts.
    pub open spec fn within(self, timeout_ticks: u8) -> bool {
        self matches FwUpdateState::InProgress(ticks) ==> ticks == 0 || ticks < timeout_ticks
    }

    /// Can one more tick be counted?
    pub fn is_countable(&self) -> (result: bool)
        ensures
            result == self.countable(),
            result <==> *self != FwUpdateState::InProgress(255),
    {
        match self {
            FwUpdateState::InProgress(ticks) => *ticks < u8::MAX,
            _ => true,
        }
    }
}

/// State that is kept for a controller.
#[derive(Debug, Clone, Copy, PartialEq, Eq, Structural)]
pub struct ControllerState {
    pub fw_update_state: FwUpdateState,
}

} // verus!
