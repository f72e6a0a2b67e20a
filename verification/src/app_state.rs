//! The state that the client publishes.

use vstd::prelude::*;

verus! {

/// What the client currently believes about the device.
#[derive(Debug, Clone, Copy, PartialEq, Eq, Structural)]
pub enum AppState {
    /// Nothing has been evaluated yet.
    Unknown,
    /// The device is not needed: the user is idle or waking is disabled.
    Idle,
    /// The device is needed but has not confirmed that it is reachable.
    WakeUp,
    /// The device is needed and answered the last heartbeat.
    NasReady,
}

impl Default for AppState {
    fn default() -> (state: AppState)
        ensures
            state == AppState::Unknown,
    {
        AppState::Unknown
    }
}

} // verus!
