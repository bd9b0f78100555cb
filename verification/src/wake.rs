//! The wake scheduler: suspends its caller until a target second and then has
//! the completion callback invoked, once.
//!
//! The scheduler decides; the caller acts. Each step takes what happened and
//! answers with what to do next: sleep for a number of seconds, invoke the
//! callback, or nothing.

use crate::clock::current_timestamp;
use vstd::prelude::*;

verus! {

/// Where one scheduling call stands, as its caller sees it.
#[derive(Clone, Copy, Debug, PartialEq, Eq, Structural)]
pub enum WakeState {
    /// Not yet invoked.
    Inactive,
    /// Invoked; the callback has not yet returned.
    Running,
    /// The suspension is over and the callback has returned.
    Ended,
}

/// Where one scheduling call stands, with the two halves of `Running` told
/// apart.
#[derive(Clone, Copy, Debug, PartialEq, Eq, Structural)]
pub enum WakePhase {
    /// Not yet invoked.
    Inactive,
    /// The caller is suspended until the target time.
    Suspended,
    /// The callback has been handed out and has not yet returned.
    Firing,
    /// The callback has returned.
    Ended,
}

/// What happened since the last step.
#[derive(Clone, Copy, Debug, PartialEq, Eq, Structural)]
pub enum WakeEvent {
    /// The scheduling call was made.
    Invoked,
    /// The suspension that the scheduler asked for is over.
    Elapsed,
    /// The callback has returned.
    Returned,
}

/// What the caller is to do next.
#[derive(Clone, Copy, Debug, PartialEq, Eq, Structural)]
pub enum WakeAction {
    /// Suspend for `seconds`, which is at least one, then report `Elapsed`.
    Sleep { seconds: u64 },
    /// Invoke the callback, then report `Returned`.
    Fire,
    /// Nothing.
    Idle,
}

/// The state that callers see for a phase.
pub open spec fn state_of(phase: WakePhase) -> WakeState {
    match phase {
        WakePhase::Inactive => WakeState::Inactive,
        WakePhase::Suspended => WakeState::Running,
        WakePhase::Firing => WakeState::Running,
        WakePhase::Ended => WakeState::Ended,
    }
}

/// The seconds from `now` until `target`; none once `target` is reached.
pub open spec fn delay_until(target: int, now: int) -> int {
    if target <= now {
        0
    } else {
        target - now
    }
}

/// One step of the scheduler for the target time `target`: the next phase and
/// the action, for the event that came in phase `phase` when the clock read
/// `now`.
///
/// An invocation at or after the target time fires at once, without a
/// suspension; before it, the caller sleeps for the seconds that are left. The
/// end of the suspension fires the callback, and its return ends the call. An
/// event that the phase does not wait for changes nothing.
pub open spec fn wake_step(target: int, phase: WakePhase, event: WakeEvent, now: int) -> (
    WakePhase,
    WakeAction,
) {
    match (phase, event) {
        (WakePhase::Inactive, WakeEvent::Invoked) => if target <= now {
            (WakePhase::Firing, WakeAction::Fire)
        } else {
            (WakePhase::Suspended, WakeAction::Sleep { seconds: (target - now) as u64 })
        },
        (WakePhase::Suspended, WakeEvent::Elapsed) => (WakePhase::Firing, WakeAction::Fire),
        (WakePhase::Firing, WakeEvent::Returned) => (WakePhase::Ended, WakeAction::Idle),
        _ => (phase, WakeAction::Idle),
    }
}

/// How often the callback is handed out along `trace`, a run of events each
/// with the clock's reading at its step, from phase `phase`.
pub open spec fn fire_count(target: int, phase: WakePhase, trace: Seq<(WakeEvent, int)>) -> nat
    decreases trace.len(),
{
    if trace.len() == 0 {
        0
    } else {
        let (next, action) = wake_step(target, phase, trace[0].0, trace[0].1);
        let fired: nat = if action == WakeAction::Fire {
            1
        } else {
            0
        };
        fired + fire_count(target, next, trace.drop_first())
    }
}

/// The phase that `trace` leads to from phase `phase`.
pub open spec fn phase_after(target: int, phase: WakePhase, trace: Seq<(WakeEvent, int)>) -> WakePhase
    decreases trace.len(),
{
    if trace.len() == 0 {
        phase
    } else {
        phase_after(
            target,
            wake_step(target, phase, trace[0].0, trace[0].1).0,
            trace.drop_first(),
        )
    }
}

/// Whether the callback is still to come in phase `phase`.
pub open spec fn callback_pending(phase: WakePhase) -> bool {
    phase == WakePhase::Inactive || phase == WakePhase::Suspended
}

/// Whatever events come in whatever order, the callback is handed out once
/// where it was still to come and the call has ended, never more than once,
/// and not at all where it had been handed out before.
pub proof fn lemma_fire_count(target: int, phase: WakePhase, trace: Seq<(WakeEvent, int)>)
    ensures
        fire_count(target, phase, trace) <= 1,
        !callback_pending(phase) ==> fire_count(target, phase, trace) == 0,
        callback_pending(phase) && phase_after(target, phase, trace) == WakePhase::Ended
            ==> fire_count(target, phase, trace) == 1,
    decreases trace.len(),
{
    if trace.len() > 0 {
        let next = wake_step(target, phase, trace[0].0, trace[0].1).0;
        lemma_fire_count(target, next, trace.drop_first());
    }
}

/// One scheduling call fires its callback at most once, whatever its caller
/// reports and however often; once the call has ended it has fired exactly
/// once.
pub proof fn lemma_fires_at_most_once(target: int, trace: Seq<(WakeEvent, int)>)
    ensures
        fire_count(target, WakePhase::Inactive, trace) <= 1,
        phase_after(target, WakePhase::Inactive, trace) == WakePhase::Ended ==> fire_count(
            target,
            WakePhase::Inactive,
            trace,
        ) == 1,
{
    lemma_fire_count(target, WakePhase::Inactive, trace);
}

/// A call whose target time has been reached when it is invoked fires at
/// once: no suspension is asked for. A call that is early sleeps for exactly
/// the seconds that are left.
pub proof fn lemma_invocation(target: int, now: int)
    requires
        i64::MIN <= target <= i64::MAX,
        i64::MIN <= now <= i64::MAX,
    ensures
        target <= now ==> wake_step(target, WakePhase::Inactive, WakeEvent::Invoked, now) == (
            WakePhase::Firing,
            WakeAction::Fire,
        ),
        target > now ==> wake_step(target, WakePhase::Inactive, WakeEvent::Invoked, now) == (
            WakePhase::Suspended,
            WakeAction::Sleep { seconds: (target - now) as u64 },
        ) && (target - now) as u64 == target - now,
{
}

/// The seconds to sleep from `now` until `target`: zero where the target time
/// has been reached, never a negative number.
pub fn wake_delay(target: i64, now: i64) -> (seconds: u64)
    ensures
        seconds == delay_until(target as int, now as int),
{
    if target <= now {
        0
    } else {
        (target as i128 - now as i128) as u64
    }
}

/// One scheduling call: a target time and how far the call has come.
#[derive(Debug)]
pub struct WakeScheduler {
    target_time: i64,
    phase: WakePhase,
}

impl WakeScheduler {
    /// The second at which the callback is due.
    pub closed spec fn target(&self) -> int {
        self.target_time as int
    }

    /// How far the call has come.
    pub closed spec fn phase(&self) -> WakePhase {
        self.phase
    }

    /// A scheduler for `target_time` that has not been invoked.
    pub fn new(target_time: i64) -> (scheduler: WakeScheduler)
        ensures
            scheduler.target() == target_time,
            scheduler.phase() == WakePhase::Inactive,
    {
        WakeScheduler { target_time, phase: WakePhase::Inactive }
    }

    /// The second at which the callback is due.
    pub fn target_time(&self) -> (target_time: i64)
        ensures
            target_time == self.target(),
    {
        self.target_time
    }

    /// The state of the call.
    pub fn state(&self) -> (state: WakeState)
        ensures
            state == state_of(self.phase()),
    {
        match self.phase {
            WakePhase::Inactive => WakeState::Inactive,
            WakePhase::Suspended => WakeState::Running,
            WakePhase::Firing => WakeState::Running,
            WakePhase::Ended => WakeState::Ended,
        }
    }

    /// Takes `event`, which came when the clock read `now`, and says what to
    /// do next.
    pub fn step_at(&mut self, event: WakeEvent, now: i64) -> (action: WakeAction)
        ensures
            final(self).target() == old(self).target(),
            (final(self).phase(), action) == wake_step(
                old(self).target(),
                old(self).phase(),
                event,
                now as int,
            ),
            old(self).phase() == WakePhase::Inactive && event == WakeEvent::Invoked ==> {
                &&& action != WakeAction::Idle
                &&& action == WakeAction::Fire <==> old(self).target() <= now
                &&& action matches WakeAction::Sleep { seconds } ==> seconds == old(
                    self,
                ).target() - now
            },
    {
        match (self.phase, event) {
            (WakePhase::Inactive, WakeEvent::Invoked) => {
                let seconds = wake_delay(self.target_time, now);
                if seconds == 0 {
                    self.phase = WakePhase::Firing;
                    WakeAction::Fire
                } else {
                    self.phase = WakePhase::Suspended;
                    WakeAction::Sleep { seconds }
                }
            },
            (WakePhase::Suspended, WakeEvent::Elapsed) => {
                self.phase = WakePhase::Firing;
                WakeAction::Fire
            },
            (WakePhase::Firing, WakeEvent::Returned) => {
                self.phase = WakePhase::Ended;
                WakeAction::Idle
            },
            _ => WakeAction::Idle,
        }
    }

    /// Takes `event` and says what to do next, by the clock's reading.
    ///
    /// The answer is the one that `step_at` gives for some reading of the
    /// clock. Only the invocation depends on the clock.
    pub fn step(&mut self, event: WakeEvent) -> (action: WakeAction)
        ensures
            final(self).target() == old(self).target(),
            exists|now: i64|
                (final(self).phase(), action) == #[trigger] wake_step(
                    old(self).target(),
                    old(self).phase(),
                    event,
                    now as int,
                ),
    {
        let now = current_timestamp();
        let action = self.step_at(event, now);
        assert((self.phase(), action) == wake_step(
            old(self).target(),
            old(self).phase(),
            event,
            now as int,
        ));
        action
    }
}

/// Invokes a scheduler for `wakeup_time_epoch` at the clock's reading: the
/// scheduler, now running, and what its caller is to do first.
///
/// The first action is never `Idle`: the caller either sleeps for the seconds
/// that are left, at least one, or fires the callback at once.
pub fn notify_at(wakeup_time_epoch: i64) -> (started: (WakeScheduler, WakeAction))
    ensures
        started.0.target() == wakeup_time_epoch,
        exists|now: i64|
            (started.0.phase(), started.1) == #[trigger] wake_step(
                wakeup_time_epoch as int,
                WakePhase::Inactive,
                WakeEvent::Invoked,
                now as int,
            ),
        state_of(started.0.phase()) == WakeState::Running,
        started.1 != WakeAction::Idle,
{
    let mut scheduler = WakeScheduler::new(wakeup_time_epoch);
    let action = scheduler.step(WakeEvent::Invoked);
    (scheduler, action)
}

} // verus!
