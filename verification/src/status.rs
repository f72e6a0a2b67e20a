//! What the presentation layer shows for the client's state.

use vstd::prelude::*;
use vstd::string::StringExecFns;
use crate::text::{decimal_u64, digits_of};
use crate::app_state::AppState;
use crate::wake_mode::WakeMode;

verus! {

/// The status line for a state under a wake mode.
pub open spec fn status_line(state: AppState, mode: WakeMode) -> Seq<char> {
    match state {
        AppState::Unknown => "Status: Unknown"@,
        AppState::Idle => match mode {
            WakeMode::AlwaysOn => "Status: NAS Needed"@,
            WakeMode::Auto => "Status: Idle"@,
            WakeMode::Off => "Status: NAS Not Needed"@,
        },
        AppState::WakeUp => match mode {
            WakeMode::AlwaysOn => "Status: Waking NAS"@,
            WakeMode::Auto => "Status: Waking NAS"@,
            WakeMode::Off => "Status: NAS Not Needed"@,
        },
        AppState::NasReady => "Status: NAS Ready"@,
    }
}

/// The status line to show for the published state.
pub fn status_text(state: AppState, mode: WakeMode) -> (text: &'static str)
    ensures
        text@ == status_line(state, mode),
{
    match state {
        AppState::Unknown => "Status: Unknown",
        AppState::Idle => match mode {
            WakeMode::AlwaysOn => "Status: NAS Needed",
            WakeMode::Auto => "Status: Idle",
            WakeMode::Off => "Status: NAS Not Needed",
        },
        AppState::WakeUp => match mode {
            WakeMode::AlwaysOn => "Status: Waking NAS",
            WakeMode::Auto => "Status: Waking NAS",
            WakeMode::Off => "Status: NAS Not Needed",
        },
        AppState::NasReady => "Status: NAS Ready",
    }
}

/// The icon resource for a state: grey while the device is not asked for,
/// yellow while it is being woken, green once it is ready.
pub open spec fn icon_of(state: AppState) -> Seq<char> {
    match state {
        AppState::Unknown => "nas_grey_ico"@,
        AppState::Idle => "nas_grey_ico"@,
        AppState::WakeUp => "nas_yellow_ico"@,
        AppState::NasReady => "nas_green_ico"@,
    }
}

/// The name of the tray icon resource for the published state.
pub fn tray_icon(state: AppState) -> (name: &'static str)
    ensures
        name@ == icon_of(state),
{
    match state {
        AppState::Unknown => "nas_grey_ico",
        AppState::Idle => "nas_grey_ico",
        AppState::WakeUp => "nas_yellow_ico",
        AppState::NasReady => "nas_green_ico",
    }
}

/// A span of time in the unit in which it is shown.
#[derive(Debug, Clone, Copy, PartialEq, Eq, Structural)]
pub enum Elapsed {
    /// Under a minute: the seconds.
    Seconds(u64),
    /// Under an hour: the whole minutes.
    Minutes(u64),
    /// An hour or more: the whole hours.
    Hours(u64),
}

/// The unit and count in which a number of seconds is shown.
pub open spec fn elapsed_of(seconds: u64) -> Elapsed {
    if seconds < 60 {
        Elapsed::Seconds(seconds)
    } else if seconds < 3600 {
        Elapsed::Minutes(seconds / 60)
    } else {
        Elapsed::Hours(seconds / 3600)
    }
}

/// Splits a number of seconds into the unit and count in which it is shown.
pub fn elapsed(seconds: u64) -> (elapsed: Elapsed)
    ensures
        elapsed == elapsed_of(seconds),
{
    if seconds < 60 {
        Elapsed::Seconds(seconds)
    } else if seconds < 3600 {
        Elapsed::Minutes(seconds / 60)
    } else {
        Elapsed::Hours(seconds / 3600)
    }
}

/// The words for a span of time that lies in the past.
pub open spec fn ago_text(elapsed: Elapsed) -> Seq<char> {
    match elapsed {
        Elapsed::Seconds(count) => digits_of(count as nat) + " seconds ago"@,
        Elapsed::Minutes(count) => digits_of(count as nat) + " minutes ago"@,
        Elapsed::Hours(count) => digits_of(count as nat) + " hours ago"@,
    }
}

/// How long ago the last heartbeat was, in words, from the seconds since then.
pub fn last_heartbeat_ago(seconds: u64) -> (text: String)
    ensures
        text@ == ago_text(elapsed_of(seconds)),
{
    match elapsed(seconds) {
        Elapsed::Seconds(count) => decimal_u64(count).concat(" seconds ago"),
        Elapsed::Minutes(count) => decimal_u64(count).concat(" minutes ago"),
        Elapsed::Hours(count) => decimal_u64(count).concat(" hours ago"),
    }
}

/// Whether slower observers are worth notifying: when the state or the wake
/// mode differs from what they saw last.
pub fn display_changed(
    state: AppState,
    mode: WakeMode,
    last_state: AppState,
    last_mode: WakeMode,
) -> (changed: bool)
    ensures
        changed == (state != last_state || mode != last_mode),
{
    state != last_state || mode != last_mode
}

} // verus!
