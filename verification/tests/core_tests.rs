use autoclicker::{
    ActivationState, Button, ClickSchedule, Mode, Scheduler, TriggerEvent, decode_event,
    find_event_token, keyboard_device_paths, BTN_LEFT, BTN_MIDDLE, BTN_RIGHT,
};

fn feed_all(st: &mut ActivationState, evs: &[TriggerEvent]) {
    for ev in evs {
        st.on_event(*ev);
    }
}

#[test]
fn hold_press_release_press_ends_active() {
    let mut st = ActivationState::new(Mode::Hold);
    feed_all(
        &mut st,
        &[TriggerEvent::TriggerPressed, TriggerEvent::TriggerReleased, TriggerEvent::TriggerPressed],
    );
    assert!(st.active);
}

#[test]
fn hold_press_release_ends_inactive() {
    let mut st = ActivationState::new(Mode::Hold);
    feed_all(&mut st, &[TriggerEvent::TriggerPressed, TriggerEvent::TriggerReleased]);
    assert!(!st.active);
}

#[test]
fn hold_ignores_other_events() {
    let mut st = ActivationState::new(Mode::Hold);
    feed_all(&mut st, &[TriggerEvent::TriggerPressed, TriggerEvent::Ignored]);
    assert!(st.active);
}

#[test]
fn toggle_three_presses_with_releases_ends_active() {
    let mut st = ActivationState::new(Mode::Toggle);
    feed_all(
        &mut st,
        &[
            TriggerEvent::TriggerPressed,
            TriggerEvent::TriggerReleased,
            TriggerEvent::TriggerPressed,
            TriggerEvent::TriggerReleased,
            TriggerEvent::TriggerPressed,
        ],
    );
    assert!(st.active);
}

#[test]
fn toggle_releases_are_ignored() {
    let mut st = ActivationState::new(Mode::Toggle);
    feed_all(&mut st, &[TriggerEvent::TriggerPressed, TriggerEvent::TriggerReleased]);
    assert!(st.active);
    feed_all(&mut st, &[TriggerEvent::TriggerReleased, TriggerEvent::TriggerReleased]);
    assert!(st.active);
}

#[test]
fn decode_trigger_press_and_release() {
    assert_eq!(decode_event(1, 60, 1), TriggerEvent::TriggerPressed);
    assert_eq!(decode_event(1, 60, 0), TriggerEvent::TriggerReleased);
}

#[test]
fn decode_ignores_autorepeat() {
    assert_eq!(decode_event(1, 60, 2), TriggerEvent::Ignored);
}

#[test]
fn decode_ignores_wrong_type_or_code() {
    assert_eq!(decode_event(2, 60, 1), TriggerEvent::Ignored);
    assert_eq!(decode_event(1, 30, 1), TriggerEvent::Ignored);
}

#[test]
fn decode_terminate_any_value() {
    assert_eq!(decode_event(1, 61, 1), TriggerEvent::Terminate);
    assert_eq!(decode_event(1, 61, 0), TriggerEvent::Terminate);
    assert_eq!(decode_event(0, 61, 2), TriggerEvent::Terminate);
}

#[test]
fn button_codes() {
    assert_eq!(Button::Left.code(), 0x110);
    assert_eq!(Button::Right.code(), 0x111);
    assert_eq!(Button::Middle.code(), 0x112);
    assert_eq!(BTN_LEFT, 0x110);
    assert_eq!(BTN_RIGHT, 0x111);
    assert_eq!(BTN_MIDDLE, 0x112);
}

#[test]
fn button_from_index() {
    assert_eq!(Button::from_index(0), Button::Left);
    assert_eq!(Button::from_index(1), Button::Right);
    assert_eq!(Button::from_index(2), Button::Middle);
    assert_eq!(Button::from_index(7), Button::Left);
}

#[test]
fn schedule_interval_from_rate() {
    let s = ClickSchedule::new(5, 0);
    assert_eq!(s.interval_ns, 200_000_000);
    assert_eq!(s.button, Button::Left);
    let s = ClickSchedule::new(10, 1);
    assert_eq!(s.interval_ns, 100_000_000);
    assert_eq!(s.button, Button::Right);
}

#[test]
fn schedule_zero_rate_is_clamped() {
    let s = ClickSchedule::new(0, 0);
    assert_eq!(s.interval_ns, 1_000_000_000);
}

#[test]
fn schedule_huge_rate_is_clamped() {
    let s = ClickSchedule::new(u32::MAX, 0);
    assert_eq!(s.interval_ns, 1);
}

#[test]
fn stop_request_is_idempotent() {
    let mut s = Scheduler::new(ClickSchedule::new(10, 0), Mode::Hold);
    s.feed_event(TriggerEvent::TriggerPressed);
    s.request_stop();
    let once = (s.running, s.activation.active, s.last_click_ns);
    s.request_stop();
    let twice = (s.running, s.activation.active, s.last_click_ns);
    assert!(!s.running);
    assert_eq!(once, twice);
}

#[test]
fn terminate_event_stops_for_good() {
    let mut s = Scheduler::new(ClickSchedule::new(10, 0), Mode::Hold);
    s.feed_event(TriggerEvent::Terminate);
    assert!(!s.running);
    s.feed_event(TriggerEvent::TriggerPressed);
    assert!(!s.running);
    assert!(!s.wants_click(1_000_000_000));
}

#[test]
fn first_click_fires_at_activation() {
    let mut s = Scheduler::new(ClickSchedule::new(10, 0), Mode::Hold);
    assert!(!s.wants_click(0));
    s.feed_event(TriggerEvent::TriggerPressed);
    assert!(s.wants_click(0));
    s.record_click(0);
    assert!(!s.wants_click(99_999_999));
    assert!(s.wants_click(100_000_000));
}

#[test]
fn hold_scenario_five_cps() {
    // cps = 5, left button, hold mode; press at t = 0 ms, release at
    // t = 1200 ms, one tick per millisecond: clicks at 0, 200, ...,
    // 1000 ms and none after the release.
    let ms = 1_000_000u64;
    let mut s = Scheduler::new(ClickSchedule::new(5, 0), Mode::Hold);
    let mut clicks: Vec<u64> = Vec::new();
    for t_ms in 0..=1500u64 {
        let now = t_ms * ms;
        if t_ms == 0 {
            s.feed_event(TriggerEvent::TriggerPressed);
        }
        if t_ms == 1200 {
            s.feed_event(TriggerEvent::TriggerReleased);
        }
        if s.wants_click(now) {
            clicks.push(t_ms);
            s.record_click(now);
        }
    }
    assert_eq!(clicks, vec![0, 200, 400, 600, 800, 1000]);
}

#[test]
fn emission_failure_is_retried_next_tick() {
    let ms = 1_000_000u64;
    let mut s = Scheduler::new(ClickSchedule::new(5, 0), Mode::Hold);
    s.feed_event(TriggerEvent::TriggerPressed);
    assert!(s.wants_click(0));
    // The first emission fails: nothing recorded, the next tick is due
    // again at once.
    assert!(s.wants_click(1 * ms));
    s.record_click(1 * ms);
    assert!(!s.wants_click(2 * ms));
    assert!(s.wants_click(201 * ms));
}

#[test]
fn enumerator_matching_stanza_yields_path() {
    let listing = b"I: Bus=0011 Vendor=0001 Product=0001 Version=ab41\n\
N: Name=\"AT Translated Set 2 keyboard\"\n\
H: Handlers=sysrq kbd leds event4\n\
B: EV=120013\n";
    let devices = keyboard_device_paths(listing);
    assert_eq!(devices.len(), 1);
    assert_eq!(devices[0], b"/dev/input/event4".to_vec());
}

#[test]
fn enumerator_missing_marker_yields_nothing() {
    let listing = b"I: Bus=0003 Vendor=046d Product=c077 Version=0111\n\
N: Name=\"USB Optical Mouse\"\n\
H: Handlers=mouse1 event5\n\
B: EV=17\n";
    let devices = keyboard_device_paths(listing);
    assert_eq!(devices.len(), 0);
}

#[test]
fn enumerator_kbd_without_sysrq_yields_nothing() {
    let listing = b"I: Bus=0003 Vendor=1234 Product=5678 Version=0100\n\
H: Handlers=kbd event7\n";
    let devices = keyboard_device_paths(listing);
    assert_eq!(devices.len(), 0);
}

#[test]
fn enumerator_two_stanzas_one_keyboard() {
    let listing = b"I: Bus=0011 Vendor=0001 Product=0001 Version=ab41\n\
H: Handlers=sysrq kbd leds event4\n\
I: Bus=0003 Vendor=046d Product=c077 Version=0111\n\
H: Handlers=mouse1 event5\n";
    let devices = keyboard_device_paths(listing);
    assert_eq!(devices.len(), 1);
    assert_eq!(devices[0], b"/dev/input/event4".to_vec());
}

#[test]
fn enumerator_empty_listing() {
    let devices = keyboard_device_paths(b"");
    assert_eq!(devices.len(), 0);
}

#[test]
fn event_token_is_found() {
    let line = b"H: Handlers=sysrq kbd leds event12 ";
    let token = find_event_token(line).expect("token");
    assert_eq!(token, b"event12".to_vec());
}

#[test]
fn event_token_absent() {
    assert!(find_event_token(b"H: Handlers=mouse1").is_none());
    assert!(find_event_token(b"").is_none());
}

#[test]
fn event_token_first_of_several() {
    let line = b"H: event3 event9";
    let token = find_event_token(line).expect("token");
    assert_eq!(token, b"event3".to_vec());
}

#[test]
fn event_token_must_be_token_start() {
    // `xevent4` is a token that does not begin with `event`.
    assert!(find_event_token(b"H: Handlers=xevent4").is_none());
}

#[test]
fn feed_events_batch_matches_single_feeds() {
    let mut a = Scheduler::new(ClickSchedule::new(10, 0), Mode::Toggle);
    let mut b = Scheduler::new(ClickSchedule::new(10, 0), Mode::Toggle);
    let evs = vec![
        TriggerEvent::TriggerPressed,
        TriggerEvent::TriggerReleased,
        TriggerEvent::Ignored,
        TriggerEvent::TriggerPressed,
    ];
    a.feed_events(&evs);
    for ev in &evs {
        b.feed_event(*ev);
    }
    assert_eq!(a.activation.active, b.activation.active);
    assert_eq!(a.running, b.running);
    assert!(!a.activation.active);
}
