//! Decoding of raw input-event records into trigger events.
//!
//! A raw input record carries a type field, a key code and a signed
//! value. Only key-type records (type 1) whose code matches the trigger
//! key are relevant for activation; a record whose code matches the
//! terminate key is an unconditional termination request, whatever its
//! value. Auto-repeat records (value 2) and any other value besides
//! 0 (release) and 1 (press) are ignored for trigger detection, so key
//! auto-repeat can never re-trigger or double-toggle the state.

use vstd::prelude::*;

verus! {

/// Record type of a key press/release event in the raw input stream.
pub const KEY_EVENT_TYPE: u16 = 1;

/// Key code of the trigger key (F2) that governs clicking.
pub const TRIGGER_KEY: u16 = 60;

/// Key code of the terminate key (F3) that ends the process.
pub const TERMINATE_KEY: u16 = 61;

/// One decoded input event, as far as the core cares about it.
#[derive(Clone, Copy, Debug, PartialEq, Eq, Structural)]
pub enum TriggerEvent {
    /// The trigger key went down.
    TriggerPressed,
    /// The trigger key went up.
    TriggerReleased,
    /// The terminate key was seen: an unconditional stop request.
    Terminate,
    /// Anything else: not an event of interest.
    Ignored,
}

/// What a full raw record (type, code, value) decodes to.
pub open spec fn spec_decode(type_: u16, code: u16, value: i32) -> TriggerEvent {
    if code == TERMINATE_KEY {
        TriggerEvent::Terminate
    } else if type_ == KEY_EVENT_TYPE && code == TRIGGER_KEY && value == 1i32 {
        TriggerEvent::TriggerPressed
    } else if type_ == KEY_EVENT_TYPE && code == TRIGGER_KEY && value == 0i32 {
        TriggerEvent::TriggerReleased
    } else {
        TriggerEvent::Ignored
    }
}

/// Decode one full raw input record.
///
/// The terminate key is honoured regardless of record type and of
/// press/release value; the trigger key only on a key-type record with
/// value exactly 0 or 1 (auto-repeat and exotic values are ignored).
pub fn decode_event(type_: u16, code: u16, value: i32) -> (ev: TriggerEvent)
    ensures
        ev == spec_decode(type_, code, value),
{
    if code == TERMINATE_KEY {
        TriggerEvent::Terminate
    } else if type_ == KEY_EVENT_TYPE && code == TRIGGER_KEY && value == 1 {
        TriggerEvent::TriggerPressed
    } else if type_ == KEY_EVENT_TYPE && code == TRIGGER_KEY && value == 0 {
        TriggerEvent::TriggerReleased
    } else {
        TriggerEvent::Ignored
    }
}

} // verus!
