//! Per-tick scheduling decisions of the driver loop.
//!
//! The loop itself lives outside the library, since it sleeps, reads
//! devices and talks to the display server. Each iteration it hands the
//! decoded events and the current monotonic time to the [`Scheduler`],
//! which updates the activation state, tracks the liveness flag, and
//! says whether a click is due. On a successful emission the caller
//! reports back and the last-click timestamp advances; on a failed one
//! it does not, so the next tick simply tries again.
//!
//! Termination is one-way: both the external stop signal and a
//! terminate-key event clear the liveness flag, nothing ever sets it
//! again, and clearing it twice is the same as clearing it once. The
//! terminate key thus goes through the same orderly shutdown path as
//! the signal rather than ending the process on the spot.

use vstd::prelude::*;

use crate::activation::{ActivationState, Mode, spec_step};
use crate::input::TriggerEvent;
use crate::schedule::ClickSchedule;

verus! {

/// The whole run state of the driver loop: activation, schedule,
/// liveness, and the time of the last successful click.
pub struct Scheduler {
    /// The activation state machine fed by trigger events.
    pub activation: ActivationState,
    /// The immutable click schedule.
    pub schedule: ClickSchedule,
    /// Liveness flag: the loop runs while this is true. Cleared exactly
    /// once, by a stop signal or a terminate event, never set again.
    pub running: bool,
    /// Monotonic time of the last successful click, if any.
    pub last_click_ns: Option<u64>,
}

/// A scheduler after one event is fed in: the activation state steps,
/// and a terminate event clears the liveness flag.
pub open spec fn spec_feed(s: Scheduler, ev: TriggerEvent) -> Scheduler {
    Scheduler {
        activation: ActivationState {
            active: spec_step(s.activation.mode, s.activation.active, ev),
            mode: s.activation.mode,
        },
        running: s.running && ev != TriggerEvent::Terminate,
        ..s
    }
}

/// A scheduler after a whole batch of events, in order.
pub open spec fn spec_feed_all(s: Scheduler, evs: Seq<TriggerEvent>) -> Scheduler
    decreases evs.len(),
{
    if evs.len() == 0 {
        s
    } else {
        spec_feed(spec_feed_all(s, evs.drop_last()), evs.last())
    }
}

/// Whether a click is due at time `now_ns`: the loop is live, clicking
/// is active, and the last successful click — if there was one — lies a
/// full interval in the past.
pub open spec fn spec_wants_click(s: Scheduler, now_ns: u64) -> bool {
    &&& s.running
    &&& s.activation.active
    &&& match s.last_click_ns {
        Option::None => true,
        Option::Some(l) => l + s.schedule.interval_ns <= now_ns,
    }
}

/// A scheduler after the external stop request: only liveness changes.
pub open spec fn spec_stop(s: Scheduler) -> Scheduler {
    Scheduler { running: false, ..s }
}

impl Scheduler {
    /// A fresh scheduler: live, inactive, and with no click on record,
    /// so the first due click fires as soon as activation arrives.
    pub fn new(schedule: ClickSchedule, mode: Mode) -> (s: Self)
        ensures
            s.schedule == schedule,
            s.activation == (ActivationState { active: false, mode }),
            s.running == true,
            s.last_click_ns is None,
    {
        Scheduler {
            activation: ActivationState::new(mode),
            schedule,
            running: true,
            last_click_ns: None,
        }
    }

    /// The external stop signal: clears liveness and touches nothing
    /// else. Idempotent and irreversible.
    pub fn request_stop(&mut self)
        ensures
            *final(self) == spec_stop(*old(self)),
    {
        self.running = false;
    }

    /// Feed one decoded event: the activation state steps by the
    /// configured mode, and a terminate event clears liveness.
    pub fn feed_event(&mut self, ev: TriggerEvent)
        ensures
            *final(self) == spec_feed(*old(self), ev),
    {
        if let TriggerEvent::Terminate = ev {
            self.running = false;
        }
        self.activation.on_event(ev);
    }

    /// Feed a batch of events gathered from all devices, in order.
    pub fn feed_events(&mut self, evs: &Vec<TriggerEvent>)
        ensures
            *final(self) == spec_feed_all(*old(self), evs@),
    {
        let ghost init = *self;
        for i in 0..evs.len()
            invariant
                *self == spec_feed_all(init, evs@.take(i as int)),
        {
            assert(evs@.take(i + 1).drop_last() == evs@.take(i as int));
            assert(evs@.take(i + 1).last() == evs@[i as int]);
            self.feed_event(evs[i]);
        }
        assert(evs@.take(evs@.len() as int) == evs@);
    }

    /// Whether a click is due now. Pure; the caller emits the click and
    /// reports success through [`Scheduler::record_click`].
    pub fn wants_click(&self, now_ns: u64) -> (due: bool)
        ensures
            due == spec_wants_click(*self, now_ns),
    {
        if !self.running || !self.activation.active {
            return false;
        }
        match self.last_click_ns {
            Option::None => true,
            Option::Some(l) => l <= now_ns && now_ns - l >= self.schedule.interval_ns,
        }
    }

    /// Record a successful emission at time `now_ns`: the next click
    /// becomes due one interval later. A failed emission is simply not
    /// recorded, so the next tick attempts again.
    pub fn record_click(&mut self, now_ns: u64)
        ensures
            *final(self) == (Scheduler { last_click_ns: Some(now_ns), ..*old(self) }),
    {
        self.last_click_ns = Some(now_ns);
    }
}

/// Law: stopping is idempotent. Delivering the stop request twice
/// leaves exactly the state that delivering it once leaves.
pub proof fn lemma_stop_idempotent(s: Scheduler)
    ensures
        spec_stop(spec_stop(s)) == spec_stop(s),
{
}

/// Law: liveness is monotonic. No event can revive a stopped
/// scheduler, and a terminate event stops it for good.
pub proof fn lemma_stop_is_terminal(s: Scheduler, ev: TriggerEvent)
    ensures
        !s.running ==> !spec_feed(s, ev).running,
        ev == TriggerEvent::Terminate ==> !spec_feed(s, ev).running,
        spec_stop(s).running == false,
{
}

} // verus!
