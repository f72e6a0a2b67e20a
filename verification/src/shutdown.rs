//! The shutdown arbitrator: a debounced countdown from "no live clients" to
//! powering the device off, with two advisory vetoes.

use vstd::prelude::*;
use vstd::string::StringSliceAdditionalSpecFns;
use crate::liveness::{
    age_minutes, live_part, minutes_between, names_evicted, LivenessTable, Timestamp,
};

verus! {

/// What a tick found out about the countdown.
#[derive(Debug, Clone, Copy, PartialEq, Eq, Structural)]
pub enum Countdown {
    /// Clients are live and no countdown was pending.
    Quiet,
    /// Clients are live and the pending countdown was cancelled.
    Cancelled,
    /// No client is live: the countdown starts now.
    Started,
    /// No client is live and the delay has not elapsed yet.
    Pending,
    /// No client is live and the delay has elapsed: the vetoes decide.
    Due,
    /// The device has been powered off: the tick did nothing.
    Halted,
}

/// The timer and the finding after a tick.
#[derive(Debug, Clone, Copy, PartialEq, Eq, Structural)]
pub struct TimerStep {
    /// The timer after the tick: the instant at which the countdown started, if one is pending.
    pub timer: Option<Timestamp>,
    /// What the tick found.
    pub countdown: Countdown,
}

/// One tick of the countdown. Live clients clear the timer. Without live
/// clients an unset timer is set to `now`; a set timer stays, and is due once
/// the whole minutes since its start have reached the delay.
pub open spec fn timer_step(
    timer: Option<Timestamp>,
    any_active: bool,
    now: Timestamp,
    delay_mins: i64,
) -> TimerStep {
    if any_active {
        TimerStep {
            timer: None,
            countdown: if timer is Some {
                Countdown::Cancelled
            } else {
                Countdown::Quiet
            },
        }
    } else {
        match timer {
            None => TimerStep { timer: Some(now), countdown: Countdown::Started },
            Some(start) => TimerStep {
                timer: Some(start),
                countdown: if age_minutes(now, start) >= delay_mins {
                    Countdown::Due
                } else {
                    Countdown::Pending
                },
            },
        }
    }
}

/// Advances the countdown by one tick.
pub fn advance_timer(
    timer: Option<Timestamp>,
    any_active: bool,
    now: Timestamp,
    delay_mins: i64,
) -> (step: TimerStep)
    ensures
        step == timer_step(timer, any_active, now, delay_mins),
{
    if any_active {
        let countdown = if timer.is_some() {
            Countdown::Cancelled
        } else {
            Countdown::Quiet
        };
        return TimerStep { timer: None, countdown };
    }
    match timer {
        None => TimerStep { timer: Some(now), countdown: Countdown::Started },
        Some(start) => {
            let countdown = if minutes_between(now, start) >= delay_mins {
                Countdown::Due
            } else {
                Countdown::Pending
            };
            TimerStep { timer: Some(start), countdown }
        },
    }
}

/// Whether `needle` stands in `hay` at `at`.
pub open spec fn occurs_at(hay: Seq<u8>, needle: Seq<u8>, at: int) -> bool {
    &&& 0 <= at
    &&& at + needle.len() <= hay.len()
    &&& hay.subrange(at, at + needle.len()) == needle
}

/// Whether `needle` stands anywhere in `hay`. The empty needle stands in every text.
pub open spec fn occurs_in(hay: Seq<u8>, needle: Seq<u8>) -> bool {
    exists|at: int| occurs_at(hay, needle, at)
}

fn matches_at(hay: &[u8], needle: &[u8], at: usize) -> (found: bool)
    requires
        at + needle@.len() <= hay@.len(),
    ensures
        found == occurs_at(hay@, needle@, at as int),
{
    let total: usize = hay.len();
    let mut offset: usize = 0;
    while offset < needle.len()
        invariant
            offset <= needle@.len(),
            at + needle@.len() <= hay@.len() == total,
            forall|i: int| 0 <= i < offset ==> hay@[at + i] == needle@[i],
        decreases needle.len() - offset,
    {
        if hay[at + offset] != needle[offset] {
            assert(hay@.subrange(at as int, at + needle@.len())[offset as int] == hay@[at
                + offset]);
            return false;
        }
        offset += 1;
    }
    assert(hay@.subrange(at as int, at + needle@.len()) =~= needle@);
    true
}

/// Searches `hay` for `needle`.
pub fn contains_bytes(hay: &[u8], needle: &[u8]) -> (found: bool)
    ensures
        found == occurs_in(hay@, needle@),
{
    if needle.len() > hay.len() {
        return false;
    }
    let last: usize = hay.len() - needle.len();
    let mut at: usize = 0;
    loop
        invariant
            at <= last,
            last == hay@.len() - needle@.len(),
            forall|i: int| 0 <= i < at ==> !occurs_at(hay@, needle@, i),
        decreases last - at,
    {
        if matches_at(hay, needle, at) {
            return true;
        }
        if at == last {
            return false;
        }
        at += 1;
    }
}

/// An advisory signal that blocks a shutdown that is otherwise due.
#[derive(Debug, Clone, Copy, PartialEq, Eq, Structural)]
pub enum Veto {
    /// The keepalive marker exists.
    KeepaliveMarker,
    /// A protected process is running.
    ProtectedProcess,
}

/// The veto that is active, if any. The marker is looked at first; the
/// process listing vetoes where it holds the configured pattern.
pub open spec fn veto_of(keepalive_exists: bool, listing: Seq<u8>, pattern: Seq<u8>) -> Option<
    Veto,
> {
    if keepalive_exists {
        Some(Veto::KeepaliveMarker)
    } else if occurs_in(listing, pattern) {
        Some(Veto::ProtectedProcess)
    } else {
        None
    }
}

/// Evaluates the two vetoes from what was observed: whether the keepalive
/// marker exists, and the listing of running processes.
pub fn active_veto(keepalive_exists: bool, process_listing: &str, pattern: &str) -> (veto: Option<
    Veto,
>)
    ensures
        veto == veto_of(keepalive_exists, process_listing.spec_bytes(), pattern.spec_bytes()),
{
    if keepalive_exists {
        Some(Veto::KeepaliveMarker)
    } else if contains_bytes(process_listing.as_bytes(), pattern.as_bytes()) {
        Some(Veto::ProtectedProcess)
    } else {
        None
    }
}

/// Whether a due shutdown may go ahead: exactly when no veto is active.
pub fn should_shutdown(keepalive_exists: bool, process_listing: &str, pattern: &str) -> (go: bool)
    ensures
        go == (veto_of(keepalive_exists, process_listing.spec_bytes(), pattern.spec_bytes())
            is None),
{
    active_veto(keepalive_exists, process_listing, pattern).is_none()
}

/// What becomes of a due shutdown.
#[derive(Debug, Clone, Copy, PartialEq, Eq, Structural)]
pub enum Resolution {
    /// Power the device off, once, and stop ticking.
    PowerOff,
    /// A veto fired: the countdown is reset and starts again from zero.
    Vetoed(Veto),
    /// No shutdown was due: nothing happened.
    NotDue,
}

/// The outcome of a due shutdown for an observed veto: never `NotDue`.
pub open spec fn resolution_of(veto: Option<Veto>) -> Resolution {
    match veto {
        None => Resolution::PowerOff,
        Some(veto) => Resolution::Vetoed(veto),
    }
}

/// What one tick of the arbitrator found.
#[derive(Debug)]
pub struct TickReport {
    /// The clients that the sweep evicted.
    pub evicted: Vec<String>,
    /// Whether any client is live after the sweep.
    pub any_active: bool,
    /// What the tick found out about the countdown. On `Due` the caller
    /// observes the vetoes and calls `resolve`.
    pub countdown: Countdown,
}

/// The arbitrator's own state: the shutdown timer, whether a shutdown is
/// due and waits for the vetoes, and whether the device has been told to
/// power off. Only a due shutdown can be resolved, and only one that is
/// resolved without a veto powers the device off; after that the arbitrator
/// does nothing more.
#[derive(Debug)]
pub struct ShutdownArbiter {
    timer: Option<Timestamp>,
    due: bool,
    powered_off: bool,
}

impl ShutdownArbiter {
    #[verifier::type_invariant]
    spec fn consistent(&self) -> bool {
        &&& self.powered_off ==> !self.due && self.timer is None
        &&& self.due ==> self.timer is Some
    }

    /// The instant at which the pending countdown started, if one is pending.
    pub closed spec fn timer(&self) -> Option<Timestamp> {
        self.timer
    }

    /// Whether the last tick found the shutdown due and it has not been resolved yet.
    pub closed spec fn due(&self) -> bool {
        self.due
    }

    /// Whether the power-off has been issued.
    pub closed spec fn powered_off(&self) -> bool {
        self.powered_off
    }

    /// An arbitrator with no countdown pending.
    pub fn new() -> (arbiter: ShutdownArbiter)
        ensures
            arbiter.timer() is None,
            !arbiter.due(),
            !arbiter.powered_off(),
    {
        ShutdownArbiter { timer: None, due: false, powered_off: false }
    }

    /// Reads the timer.
    pub fn pending_since(&self) -> (timer: Option<Timestamp>)
        ensures
            timer == self.timer(),
    {
        self.timer
    }

    /// Whether a shutdown is due and waits to be resolved.
    pub fn is_due(&self) -> (due: bool)
        ensures
            due == self.due(),
    {
        self.due
    }

    /// Whether the power-off has been issued, after which no tick is meaningful.
    pub fn is_powered_off(&self) -> (off: bool)
        ensures
            off == self.powered_off(),
            off ==> !self.due() && self.timer() is None,
    {
        proof {
            use_type_invariant(self);
        }
        self.powered_off
    }

    /// Runs one tick: sweeps the table at `now`, then advances the countdown
    /// with what the sweep found. Once the device has been powered off a
    /// tick changes nothing and reports `Halted`.
    pub fn tick(
        &mut self,
        table: &mut LivenessTable,
        now: Timestamp,
        heartbeat_timeout_mins: i64,
        shutdown_delay_mins: i64,
    ) -> (report: TickReport)
        ensures
            report.any_active == (exists|name: Seq<char>| final(table)@.contains_key(name)),
            final(self).powered_off() == old(self).powered_off(),
            old(self).powered_off() ==> {
                &&& final(table)@ == old(table)@
                &&& report.evicted@.len() == 0
                &&& report.countdown == Countdown::Halted
                &&& final(self).timer() == old(self).timer()
                &&& final(self).due() == old(self).due()
            },
            !old(self).powered_off() ==> {
                &&& final(table)@ == live_part(old(table)@, now, heartbeat_timeout_mins)
                &&& names_evicted(report.evicted@, old(table)@, now, heartbeat_timeout_mins)
                &&& final(self).timer() == timer_step(
                    old(self).timer(),
                    report.any_active,
                    now,
                    shutdown_delay_mins,
                ).timer
                &&& report.countdown == timer_step(
                    old(self).timer(),
                    report.any_active,
                    now,
                    shutdown_delay_mins,
                ).countdown
                &&& final(self).due() == (report.countdown == Countdown::Due)
            },
    {
        if self.powered_off {
            let any_active = !table.is_empty();
            return TickReport { evicted: Vec::new(), any_active, countdown: Countdown::Halted };
        }
        let swept = table.sweep(now, heartbeat_timeout_mins);
        let step = advance_timer(self.timer, swept.any_active, now, shutdown_delay_mins);
        let due = step.countdown == Countdown::Due;
        *self = ShutdownArbiter { timer: step.timer, due, powered_off: false };
        TickReport {
            evicted: swept.evicted,
            any_active: swept.any_active,
            countdown: step.countdown,
        }
    }

    /// Resolves a due shutdown with the veto that was observed. Without a
    /// veto the device is powered off; with one the timer is cleared, so the
    /// countdown starts again from zero on the next tick without live
    /// clients. Where no shutdown is due, and so after a power-off, nothing
    /// happens.
    pub fn resolve(&mut self, veto: Option<Veto>) -> (resolution: Resolution)
        ensures
            old(self).powered_off() ==> !old(self).due(),
            !old(self).due() ==> {
                &&& resolution == Resolution::NotDue
                &&& final(self).timer() == old(self).timer()
                &&& !final(self).due()
                &&& final(self).powered_off() == old(self).powered_off()
            },
            old(self).due() ==> {
                &&& resolution == resolution_of(veto)
                &&& final(self).timer() is None
                &&& !final(self).due()
                &&& final(self).powered_off() == (veto is None)
            },
    {
        proof {
            use_type_invariant(&*self);
        }
        if !self.due {
            return Resolution::NotDue;
        }
        match veto {
            None => {
                *self = ShutdownArbiter { timer: None, due: false, powered_off: true };
                Resolution::PowerOff
            },
            Some(veto) => {
                *self = ShutdownArbiter { timer: None, due: false, powered_off: false };
                Resolution::Vetoed(veto)
            },
        }
    }
}

/// Debounce: a tick with live clients clears the timer, whatever it was.
/// The countdown that follows starts at the tick that next finds no live
/// client, and it is due only once the full delay has elapsed since that tick.
pub proof fn lemma_reappearance_restarts_countdown(
    timer: Option<Timestamp>,
    seen_at: Timestamp,
    restart_at: Timestamp,
    later: Timestamp,
    delay_mins: i64,
)
    ensures
        timer_step(timer, true, seen_at, delay_mins).timer is None,
        timer_step(None, false, restart_at, delay_mins) == (TimerStep {
            timer: Some(restart_at),
            countdown: Countdown::Started,
        }),
        timer_step(Some(restart_at), false, later, delay_mins).countdown == Countdown::Due
            <==> age_minutes(later, restart_at) >= delay_mins,
{
}

/// A shutdown is due only on a tick without live clients, with a countdown
/// pending whose whole minutes have reached the delay.
pub proof fn lemma_due_only_after_delay(
    timer: Option<Timestamp>,
    any_active: bool,
    now: Timestamp,
    delay_mins: i64,
)
    ensures
        timer_step(timer, any_active, now, delay_mins).countdown == Countdown::Due <==> {
            &&& !any_active
            &&& timer is Some
            &&& age_minutes(now, timer->Some_0) >= delay_mins
        },
{
}

/// Vetoes: the keepalive marker vetoes whatever the processes are, and a
/// listing that holds the pattern vetoes too. A veto never powers off, and
/// it resets the countdown rather than pausing it: the next tick without
/// live clients starts a fresh one.
pub proof fn lemma_veto_blocks_and_resets(
    keepalive_exists: bool,
    listing: Seq<u8>,
    pattern: Seq<u8>,
    next_tick: Timestamp,
    delay_mins: i64,
)
    requires
        keepalive_exists || occurs_in(listing, pattern),
    ensures
        veto_of(keepalive_exists, listing, pattern) is Some,
        resolution_of(veto_of(keepalive_exists, listing, pattern)) != Resolution::PowerOff,
        timer_step(None, false, next_tick, delay_mins) == (TimerStep {
            timer: Some(next_tick),
            countdown: Countdown::Started,
        }),
{
}

/// What one tick of a run observed: the time, whether any client was live
/// after the sweep, and the veto that would be seen if the shutdown were due.
pub struct Observation {
    /// The instant of the tick.
    pub now: Timestamp,
    /// Whether any client was live after the sweep.
    pub any_active: bool,
    /// The veto that is active at this instant, if any.
    pub veto: Option<Veto>,
}

/// The timer after a run of ticks that began with no countdown pending. A
/// tick at which the shutdown is due ends with the timer cleared, whether a
/// veto fired or the device was powered off.
pub open spec fn timer_after(run: Seq<Observation>, delay_mins: i64) -> Option<Timestamp>
    decreases run.len(),
{
    if run.len() == 0 {
        None
    } else {
        let step = timer_step(
            timer_after(run.drop_last(), delay_mins),
            run.last().any_active,
            run.last().now,
            delay_mins,
        );
        if step.countdown == Countdown::Due {
            None
        } else {
            step.timer
        }
    }
}

/// Whether the shutdown is due at tick `at` of the run.
pub open spec fn due_at(run: Seq<Observation>, at: int, delay_mins: i64) -> bool {
    &&& 0 <= at < run.len()
    &&& timer_step(
        timer_after(run.take(at), delay_mins),
        run[at].any_active,
        run[at].now,
        delay_mins,
    ).countdown == Countdown::Due
}

/// Whether the device is powered off at tick `at` of the run: the shutdown is
/// due and no veto is active.
pub open spec fn powers_off_at(run: Seq<Observation>, at: int, delay_mins: i64) -> bool {
    due_at(run, at, delay_mins) && resolution_of(run[at].veto) == Resolution::PowerOff
}

/// Whether no client was live and no shutdown was due at any tick from `from` up to `upto`.
pub open spec fn quiet_between(
    run: Seq<Observation>,
    from: int,
    upto: int,
    delay_mins: i64,
) -> bool {
    forall|k: int|
        from <= k < upto ==> !(#[trigger] run[k]).any_active && (from < k ==> !due_at(
            run,
            k,
            delay_mins,
        ))
}

proof fn lemma_timer_origin(run: Seq<Observation>, delay_mins: i64)
    ensures
        timer_after(run, delay_mins) is Some ==> exists|from: int|
            0 <= from < run.len() && (#[trigger] run[from]).now == timer_after(
                run,
                delay_mins,
            )->Some_0 && quiet_between(run, from, run.len() as int, delay_mins),
    decreases run.len(),
{
    if run.len() > 0 && timer_after(run, delay_mins) is Some {
        let front = run.drop_last();
        let last = run.len() - 1;
        lemma_timer_origin(front, delay_mins);
        assert forall|k: int| 0 <= k < last implies due_at(front, k, delay_mins) == due_at(
            run,
            k,
            delay_mins,
        ) by {
            assert(front.take(k) =~= run.take(k));
        }
        if timer_after(front, delay_mins) is None {
            assert(run[last].now == timer_after(run, delay_mins)->Some_0);
        } else {
            let from = choose|from: int|
                0 <= from < front.len() && (#[trigger] front[from]).now == timer_after(
                    front,
                    delay_mins,
                )->Some_0 && quiet_between(front, from, front.len() as int, delay_mins);
            assert forall|k: int| from <= k < run.len() implies !(#[trigger] run[k]).any_active
                && (from < k ==> !due_at(run, k, delay_mins)) by {
                if k < last {
                    assert(front[k] == run[k]);
                }
            }
        }
    }
}

/// Debounce over a whole run: wherever the shutdown is due, a countdown was
/// started at an earlier tick, no client was live and no shutdown was due at
/// any tick since, and the full delay has elapsed since that start. So a
/// client that reappears, or a veto that fires, puts the next shutdown a full
/// delay after the next tick that finds no live client.
pub proof fn lemma_due_needs_full_quiet_delay(run: Seq<Observation>, at: int, delay_mins: i64)
    requires
        due_at(run, at, delay_mins),
    ensures
        !run[at].any_active,
        exists|from: int|
            0 <= from < at && age_minutes(run[at].now, (#[trigger] run[from]).now) >= delay_mins
                && quiet_between(run, from, at, delay_mins),
{
    let before = run.take(at);
    lemma_timer_origin(before, delay_mins);
    let from = choose|from: int|
        0 <= from < before.len() && (#[trigger] before[from]).now == timer_after(
            before,
            delay_mins,
        )->Some_0 && quiet_between(before, from, before.len() as int, delay_mins);
    assert forall|k: int| from <= k < at implies !(#[trigger] run[k]).any_active && (from < k
        ==> !due_at(run, k, delay_mins)) by {
        assert(before[k] == run[k]);
        assert(before.take(k) =~= run.take(k));
    }
}

/// A veto on a run: at a tick at which the shutdown is due and a veto is
/// active, the device is not powered off and the timer is cleared, so that
/// the next countdown starts from zero.
pub proof fn lemma_veto_clears_timer(run: Seq<Observation>, at: int, delay_mins: i64)
    requires
        due_at(run, at, delay_mins),
        run[at].veto is Some,
    ensures
        !powers_off_at(run, at, delay_mins),
        timer_after(run.take(at + 1), delay_mins) is None,
{
    assert(run.take(at + 1).drop_last() =~= run.take(at));
}

/// Exactly once: after the tick that powers the device off nothing is
/// pending, and a run on which no client is ever live and no veto is ever
/// active powers off at the first tick at which the delay has elapsed since
/// the first tick.
pub proof fn lemma_idle_run_powers_off(run: Seq<Observation>, at: int, delay_mins: i64)
    requires
        0 < at < run.len(),
        forall|k: int| 0 <= k <= at ==> !(#[trigger] run[k]).any_active,
        forall|k: int| 0 < k < at ==> age_minutes((#[trigger] run[k]).now, run[0].now) < delay_mins,
        age_minutes(run[at].now, run[0].now) >= delay_mins,
        run[at].veto is None,
    ensures
        forall|k: int| 0 <= k < at ==> !due_at(run, k, delay_mins),
        powers_off_at(run, at, delay_mins),
        timer_after(run.take(at + 1), delay_mins) is None,
{
    lemma_idle_prefix(run, at, delay_mins);
    assert(run.take(at + 1).drop_last() =~= run.take(at));
}

proof fn lemma_idle_prefix(run: Seq<Observation>, upto: int, delay_mins: i64)
    requires
        0 < upto <= run.len(),
        forall|k: int| 0 <= k < upto ==> !(#[trigger] run[k]).any_active,
        forall|k: int|
            0 < k < upto ==> age_minutes((#[trigger] run[k]).now, run[0].now) < delay_mins,
    ensures
        timer_after(run.take(upto), delay_mins) == Some(run[0].now),
        forall|k: int| 0 <= k < upto ==> !due_at(run, k, delay_mins),
    decreases upto,
{
    assert(run.take(upto).drop_last() =~= run.take(upto - 1));
    if upto > 1 {
        lemma_idle_prefix(run, upto - 1, delay_mins);
    }
}

} // verus!
