//! Keyboard-triggered pointer-click automation, verified.
//!
//! The library holds the logic of an autoclicker: decoding raw keyboard
//! input records into trigger events, the activation state machine
//! (hold and toggle modes), the derived click schedule, the parser that
//! finds keyboard devices in the input-device registry listing, and the
//! per-tick scheduling decisions. A thin unverified shell performs the
//! actual device reads, signal handling and virtual-pointer emission.

use vstd::prelude::*;

mod activation;
mod bytes;
mod devices;
mod input;
mod rate;
mod schedule;
mod scheduler;

pub use devices::{is_space, identity_marker, handler_marker, handlers_keyword, kbd_marker, sysrq_marker,
    event_marker, dev_input_prefix, is_token_at, is_event_token_at, has_event_token,
    first_event_token, find_event_token, ScanState, scan_init, stanza_flush, scan_line,
    scan_byte, scan_bytes, parse_devices, state_matches, keyboard_device_paths};
pub use bytes::{has_prefix, has_substring, substring_at, bytes_have_prefix, bytes_contain};
pub use activation::{Mode, ActivationState, spec_step, spec_run, last_trigger_is_press, press_count,
    lemma_hold_tracks_last_press, lemma_toggle_counts_presses};
pub use schedule::{BTN_LEFT, BTN_RIGHT, BTN_MIDDLE, NANOS_PER_SECOND, Button, ClickSchedule,
    clamped_rate, spec_interval_ns};
pub use scheduler::{Scheduler, spec_feed, spec_feed_all, spec_wants_click, spec_stop,
    lemma_stop_idempotent, lemma_stop_is_terminal};
pub use rate::{RateTick, PacerState, pacer_init, pacer_fires, pacer_step, pacer_run,
    lemma_click_count_never_more, lemma_click_count_keeps_pace};
pub use input::{KEY_EVENT_TYPE, TRIGGER_KEY, TERMINATE_KEY, TriggerEvent, spec_decode, decode_event};

verus! {

} // verus!
