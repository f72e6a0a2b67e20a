//! The client's periodic decision: is the device needed, and what follows
//! from the heartbeat that was sent for it.

use vstd::prelude::*;
use crate::app_state::AppState;
use crate::heartbeat::{confirms_device, heartbeat_confirmed, HeartbeatOutcome};
use crate::wake_mode::WakeMode;

verus! {

/// Whether the device is needed under a wake mode and a user-activity reading.
pub open spec fn needs_device(mode: WakeMode, user_active: bool) -> bool {
    match mode {
        WakeMode::Off => false,
        WakeMode::Auto => user_active,
        WakeMode::AlwaysOn => true,
    }
}

/// Decides whether the device is needed.
pub fn need_device(mode: WakeMode, user_active: bool) -> (need: bool)
    ensures
        need == needs_device(mode, user_active),
{
    match mode {
        WakeMode::Off => false,
        WakeMode::Auto => user_active,
        WakeMode::AlwaysOn => true,
    }
}

/// The network work that a tick starts with.
#[derive(Debug, Clone, Copy, PartialEq, Eq, Structural)]
pub enum TickPlan {
    /// The device is not needed: no network traffic this tick.
    Rest,
    /// The device is needed: send one heartbeat and report how it ended.
    SendHeartbeat,
}

/// The plan of a tick: a heartbeat exactly when the device is needed.
pub open spec fn plan_for(mode: WakeMode, user_active: bool) -> TickPlan {
    if needs_device(mode, user_active) {
        TickPlan::SendHeartbeat
    } else {
        TickPlan::Rest
    }
}

/// Plans a tick from the wake mode and the activity reading taken just before.
pub fn plan_tick(mode: WakeMode, user_active: bool) -> (plan: TickPlan)
    ensures
        plan == plan_for(mode, user_active),
{
    if need_device(mode, user_active) {
        TickPlan::SendHeartbeat
    } else {
        TickPlan::Rest
    }
}

/// Which time a tick records for display.
#[derive(Debug, Clone, Copy, PartialEq, Eq, Structural)]
pub enum Stamp {
    /// Nothing is recorded.
    Nothing,
    /// The time of the successful heartbeat.
    Heartbeat,
    /// The time of the wake attempt.
    WakeAttempt,
}

/// What a tick concludes once its heartbeat, if any, has ended.
#[derive(Debug, Clone, Copy, PartialEq, Eq, Structural)]
pub struct TickVerdict {
    /// The state to publish.
    pub next_state: AppState,
    /// Whether a wake packet goes out before the state is published.
    pub send_wake: bool,
    /// Which time is recorded.
    pub stamp: Stamp,
}

/// The verdict of a tick. `heartbeat` is `None` when no heartbeat was sent;
/// a needed device without a confirming heartbeat is woken.
pub open spec fn verdict_for(
    mode: WakeMode,
    user_active: bool,
    heartbeat: Option<HeartbeatOutcome>,
) -> TickVerdict {
    if !needs_device(mode, user_active) {
        TickVerdict { next_state: AppState::Idle, send_wake: false, stamp: Stamp::Nothing }
    } else if heartbeat is Some && confirms_device(heartbeat->Some_0) {
        TickVerdict { next_state: AppState::NasReady, send_wake: false, stamp: Stamp::Heartbeat }
    } else {
        TickVerdict { next_state: AppState::WakeUp, send_wake: true, stamp: Stamp::WakeAttempt }
    }
}

/// Concludes a tick from the outcome of its heartbeat.
pub fn conclude_tick(
    mode: WakeMode,
    user_active: bool,
    heartbeat: Option<HeartbeatOutcome>,
) -> (verdict: TickVerdict)
    ensures
        verdict == verdict_for(mode, user_active, heartbeat),
{
    if !need_device(mode, user_active) {
        return TickVerdict { next_state: AppState::Idle, send_wake: false, stamp: Stamp::Nothing };
    }
    let confirmed = match heartbeat {
        Some(outcome) => heartbeat_confirmed(outcome),
        None => false,
    };
    if confirmed {
        TickVerdict { next_state: AppState::NasReady, send_wake: false, stamp: Stamp::Heartbeat }
    } else {
        TickVerdict { next_state: AppState::WakeUp, send_wake: true, stamp: Stamp::WakeAttempt }
    }
}

/// The published client state with its single writer, the tick loop.
#[derive(Debug, Clone, Copy, PartialEq, Eq, Structural)]
pub struct ClientEngine {
    state: AppState,
}

impl ClientEngine {
    /// The published state.
    pub closed spec fn view(&self) -> AppState {
        self.state
    }

    /// An engine that has not evaluated anything yet.
    pub fn new() -> (engine: ClientEngine)
        ensures
            engine@ == AppState::Unknown,
    {
        ClientEngine { state: AppState::Unknown }
    }

    /// Reads the published state.
    pub fn state(&self) -> (state: AppState)
        ensures
            state == self@,
    {
        self.state
    }

    /// Publishes the state that a tick ended in. The state is written on
    /// every tick; the result tells whether it differs from the one before,
    /// which is when slower observers are worth notifying.
    pub fn publish(&mut self, next_state: AppState) -> (changed: bool)
        ensures
            final(self)@ == next_state,
            changed == (old(self)@ != next_state),
    {
        let changed = self.state != next_state;
        self.state = next_state;
        changed
    }

    /// Runs the deciding part of one tick: concludes it from the heartbeat
    /// outcome and publishes the resulting state. The caller sends the wake
    /// packet if the verdict asks for one.
    pub fn tick(
        &mut self,
        mode: WakeMode,
        user_active: bool,
        heartbeat: Option<HeartbeatOutcome>,
    ) -> (report: (TickVerdict, bool))
        ensures
            report.0 == verdict_for(mode, user_active, heartbeat),
            final(self)@ == report.0.next_state,
            report.1 == (old(self)@ != report.0.next_state),
    {
        let verdict = conclude_tick(mode, user_active, heartbeat);
        let changed = self.publish(verdict.next_state);
        (verdict, changed)
    }
}

/// With waking switched off the device is never needed, whatever the user
/// does, and a tick neither sends a heartbeat nor a wake packet.
pub proof fn lemma_off_needs_nothing(user_active: bool, heartbeat: Option<HeartbeatOutcome>)
    ensures
        !needs_device(WakeMode::Off, user_active),
        plan_for(WakeMode::Off, user_active) == TickPlan::Rest,
        verdict_for(WakeMode::Off, user_active, heartbeat).next_state == AppState::Idle,
        !verdict_for(WakeMode::Off, user_active, heartbeat).send_wake,
{
}

/// With the device always on it is needed on every tick, whatever the user
/// does, so every tick sends a heartbeat and never ends idle.
pub proof fn lemma_always_on_needs_device(user_active: bool, heartbeat: Option<HeartbeatOutcome>)
    ensures
        needs_device(WakeMode::AlwaysOn, user_active),
        plan_for(WakeMode::AlwaysOn, user_active) == TickPlan::SendHeartbeat,
        verdict_for(WakeMode::AlwaysOn, user_active, heartbeat).next_state != AppState::Idle,
{
}

/// A needed device whose heartbeat is not confirmed is woken, and a
/// confirmed one is never woken: failures drive the state, they are not errors.
pub proof fn lemma_unconfirmed_heartbeat_wakes(
    mode: WakeMode,
    user_active: bool,
    outcome: HeartbeatOutcome,
)
    requires
        needs_device(mode, user_active),
    ensures
        verdict_for(mode, user_active, Some(outcome)).send_wake == !confirms_device(outcome),
        verdict_for(mode, user_active, Some(outcome)).next_state == if confirms_device(outcome) {
            AppState::NasReady
        } else {
            AppState::WakeUp
        },
{
}

} // verus!
