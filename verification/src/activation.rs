//! The activation state machine: trigger events in, "clicking active" out.
//!
//! In hold mode the state tracks the trigger key: active exactly while
//! the most recent trigger event was a press. In toggle mode each press
//! flips the state and releases are ignored entirely. Terminate and
//! uninteresting events never change the state; termination is handled
//! at the scheduler level, not here.

use vstd::prelude::*;

use crate::input::TriggerEvent;

verus! {

/// How trigger-key events govern the clicking state.
#[derive(Clone, Copy, Debug, PartialEq, Eq, Structural)]
pub enum Mode {
    /// Clicking is active only while the trigger key is held down.
    Hold,
    /// Each trigger-key press flips the clicking state.
    Toggle,
}

/// The clicking-active state together with its configured mode.
#[derive(Clone, Copy, Debug, PartialEq, Eq, Structural)]
pub struct ActivationState {
    /// Whether synthetic clicks should currently be emitted.
    pub active: bool,
    /// The configured mode; immutable for the process lifetime.
    pub mode: Mode,
}

/// The transition function of the state machine: what `active` becomes
/// after one event.
pub open spec fn spec_step(mode: Mode, active: bool, ev: TriggerEvent) -> bool {
    match mode {
        Mode::Hold => match ev {
            TriggerEvent::TriggerPressed => true,
            TriggerEvent::TriggerReleased => false,
            _ => active,
        },
        Mode::Toggle => match ev {
            TriggerEvent::TriggerPressed => !active,
            _ => active,
        },
    }
}

/// The state after a whole stream of events, starting from `init`.
pub open spec fn spec_run(mode: Mode, init: bool, evs: Seq<TriggerEvent>) -> bool
    decreases evs.len(),
{
    if evs.len() == 0 {
        init
    } else {
        spec_step(mode, spec_run(mode, init, evs.drop_last()), evs.last())
    }
}

/// In hold mode, what the state ought to be after a stream: was the
/// most recent trigger event a press, with no intervening release?
/// Events that are neither press nor release do not count.
pub open spec fn last_trigger_is_press(init: bool, evs: Seq<TriggerEvent>) -> bool
    decreases evs.len(),
{
    if evs.len() == 0 {
        init
    } else {
        match evs.last() {
            TriggerEvent::TriggerPressed => true,
            TriggerEvent::TriggerReleased => false,
            _ => last_trigger_is_press(init, evs.drop_last()),
        }
    }
}

/// How many presses a stream holds.
pub open spec fn press_count(evs: Seq<TriggerEvent>) -> nat
    decreases evs.len(),
{
    if evs.len() == 0 {
        0
    } else {
        press_count(evs.drop_last()) + if evs.last() == TriggerEvent::TriggerPressed {
            1nat
        } else {
            0nat
        }
    }
}

impl ActivationState {
    /// A fresh state machine: inactive at startup.
    pub fn new(mode: Mode) -> (s: Self)
        ensures
            s.active == false,
            s.mode == mode,
    {
        ActivationState { active: false, mode }
    }

    /// Consume one event: a deterministic, side-effect-free update of
    /// `active` alone. The mode never changes.
    pub fn on_event(&mut self, ev: TriggerEvent)
        ensures
            final(self).mode == old(self).mode,
            final(self).active == spec_step(old(self).mode, old(self).active, ev),
    {
        match self.mode {
            Mode::Hold => {
                match ev {
                    TriggerEvent::TriggerPressed => {
                        self.active = true;
                    },
                    TriggerEvent::TriggerReleased => {
                        self.active = false;
                    },
                    _ => {},
                }
            },
            Mode::Toggle => {
                match ev {
                    TriggerEvent::TriggerPressed => {
                        self.active = !self.active;
                    },
                    _ => {},
                }
            },
        }
    }
}

/// Law of hold mode: for every event stream, the machine is active
/// exactly when the most recent trigger event was a press with no
/// intervening release.
pub proof fn lemma_hold_tracks_last_press(init: bool, evs: Seq<TriggerEvent>)
    ensures
        spec_run(Mode::Hold, init, evs) == last_trigger_is_press(init, evs),
    decreases evs.len(),
{
    if evs.len() > 0 {
        lemma_hold_tracks_last_press(init, evs.drop_last());
    }
}

/// Law of toggle mode: for every event stream, the machine's state is
/// the initial state flipped once per press; releases and all other
/// events leave it invariant. So the final state is `init` exactly when
/// the number of presses is even.
pub proof fn lemma_toggle_counts_presses(init: bool, evs: Seq<TriggerEvent>)
    ensures
        spec_run(Mode::Toggle, init, evs) == (init ^ (press_count(evs) % 2 == 1)),
    decreases evs.len(),
{
    if evs.len() > 0 {
        lemma_toggle_counts_presses(init, evs.drop_last());
    }
}

} // verus!
