//! The client's wake policy.

use vstd::prelude::*;

verus! {

/// Policy that decides whether the device is ever asked for.
#[derive(Debug, Clone, Copy, PartialEq, Eq, Structural)]
pub enum WakeMode {
    /// The device is never woken up or kept on.
    Off,
    /// The device is woken up on user activity and released when the user is idle.
    Auto,
    /// The device is kept on regardless of user activity.
    AlwaysOn,
}

impl Default for WakeMode {
    fn default() -> (mode: WakeMode)
        ensures
            mode == WakeMode::Auto,
    {
        WakeMode::Auto
    }
}

impl WakeMode {
    /// The name under which the mode is stored in a configuration file.
    pub open spec fn config_name(self) -> Seq<char> {
        match self {
            WakeMode::Off => "off"@,
            WakeMode::Auto => "auto"@,
            WakeMode::AlwaysOn => "always-on"@,
        }
    }

    /// The name under which the mode is stored in a configuration file.
    pub fn as_config_name(self) -> (name: &'static str)
        ensures
            name@ == self.config_name(),
    {
        match self {
            WakeMode::Off => "off",
            WakeMode::Auto => "auto",
            WakeMode::AlwaysOn => "always-on",
        }
    }
}

} // verus!
