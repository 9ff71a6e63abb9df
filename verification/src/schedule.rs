//! The derived click schedule: button identifier and inter-click interval.
//!
//! The interval is computed from the configured clicks-per-second rate
//! in whole nanoseconds. A rate of zero would yield a division by zero
//! (or an unbounded interval), and a rate above one billion would yield
//! a zero interval and with it a busy-loop storm; the rate is therefore
//! clamped to that range before dividing, so the interval always lies
//! between one nanosecond and one second.

use vstd::prelude::*;

verus! {

/// Button code of a left click in the standard input-event code space.
pub const BTN_LEFT: u32 = 0x110;

/// Button code of a right click.
pub const BTN_RIGHT: u32 = 0x111;

/// Button code of a middle click.
pub const BTN_MIDDLE: u32 = 0x112;

/// Nanoseconds in one second; also the highest accepted click rate.
pub const NANOS_PER_SECOND: u64 = 1_000_000_000;

/// Which pointer button the synthetic clicks press.
#[derive(Clone, Copy, Debug, PartialEq, Eq, Structural)]
pub enum Button {
    Left,
    Right,
    Middle,
}

impl Button {
    /// The numeric code this button carries on the wire.
    pub fn code(self) -> (c: u32)
        ensures
            c == self.spec_code(),
    {
        match self {
            Button::Left => BTN_LEFT,
            Button::Right => BTN_RIGHT,
            Button::Middle => BTN_MIDDLE,
        }
    }

    /// The numeric code, at the specification level.
    pub open spec fn spec_code(self) -> u32 {
        match self {
            Button::Left => BTN_LEFT,
            Button::Right => BTN_RIGHT,
            Button::Middle => BTN_MIDDLE,
        }
    }

    /// Select a button from its command-line index: 1 is right, 2 is
    /// middle, anything else is left.
    pub fn from_index(index: u32) -> (b: Button)
        ensures
            b == Self::spec_from_index(index),
    {
        match index {
            1u32 => Button::Right,
            2u32 => Button::Middle,
            _ => Button::Left,
        }
    }

    /// The button an index selects, at the specification level.
    pub open spec fn spec_from_index(index: u32) -> Button {
        if index == 1u32 {
            Button::Right
        } else if index == 2u32 {
            Button::Middle
        } else {
            Button::Left
        }
    }
}

/// The click rate after clamping: at least one click per second, at
/// most one per nanosecond.
pub open spec fn clamped_rate(clicks_per_second: u32) -> u64 {
    if clicks_per_second == 0 {
        1u64
    } else if clicks_per_second as u64 > NANOS_PER_SECOND {
        NANOS_PER_SECOND
    } else {
        clicks_per_second as u64
    }
}

/// The inter-click interval in nanoseconds that a rate yields.
pub open spec fn spec_interval_ns(clicks_per_second: u32) -> u64 {
    (NANOS_PER_SECOND / clamped_rate(clicks_per_second)) as u64
}

/// The immutable derived configuration: minimum time between clicks and
/// the selected button.
#[derive(Clone, Copy, Debug, PartialEq, Eq, Structural)]
pub struct ClickSchedule {
    /// Minimum nanoseconds between two consecutive clicks.
    pub interval_ns: u64,
    /// The button each click presses and releases.
    pub button: Button,
}

impl ClickSchedule {
    /// Derive the schedule from the configured rate and button index.
    ///
    /// The interval is the reciprocal of the rate in nanoseconds; the
    /// rate is clamped first, so the interval is never zero and never
    /// longer than one second, whatever the configuration says.
    pub fn new(clicks_per_second: u32, button_index: u32) -> (s: Self)
        ensures
            s.interval_ns == spec_interval_ns(clicks_per_second),
            s.button == Button::spec_from_index(button_index),
            1 <= s.interval_ns <= NANOS_PER_SECOND,
    {
        let rate: u64 = if clicks_per_second == 0 {
            1
        } else if clicks_per_second as u64 > NANOS_PER_SECOND {
            NANOS_PER_SECOND
        } else {
            clicks_per_second as u64
        };
        proof {
            assert(1 <= NANOS_PER_SECOND as int / rate as int <= NANOS_PER_SECOND as int)
                by (nonlinear_arith)
                requires
                    1 <= rate <= NANOS_PER_SECOND,
            ;
        }
        ClickSchedule { interval_ns: NANOS_PER_SECOND / rate, button: Button::from_index(button_index) }
    }
}

} // verus!
