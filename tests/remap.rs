use dvorakd::batch::{capability_codes, process_batch, translate_event, BatchOutput};
use dvorakd::codes::{
    EV_KEY, EV_LED, EV_SYN, HOTKEY, KEY_A, KEY_APOSTROPHE, KEY_B, KEY_C, KEY_CAPSLOCK,
    KEY_CODE_COUNT, KEY_COMMA, KEY_D, KEY_DOT, KEY_E, KEY_EQUAL, KEY_F, KEY_G, KEY_H, KEY_I,
    KEY_J, KEY_K, KEY_L, KEY_LEFTBRACE, KEY_LEFTCTRL, KEY_M, KEY_MINUS, KEY_N, KEY_O, KEY_P,
    KEY_Q, KEY_R, KEY_RIGHTBRACE, KEY_RIGHTCTRL, KEY_S, KEY_SEMICOLON, KEY_SLASH, KEY_T, KEY_U,
    KEY_V, KEY_W, KEY_X, KEY_Y, KEY_Z, LED_CAPSL,
};
use dvorakd::event::{led_sync, LogicalEvent, KEY_PRESS, KEY_RELEASE, KEY_REPEAT, LED_MAX_BRIGHTNESS};
use dvorakd::layout::remap;
use dvorakd::snapshot::{is_bypass_active, KeyStateSnapshot};
use dvorakd::toggle::ToggleState;

const COVERED: [u16; 34] = [
    KEY_MINUS, KEY_EQUAL, KEY_Q, KEY_W, KEY_E, KEY_R, KEY_T, KEY_Y, KEY_U, KEY_I, KEY_O, KEY_P,
    KEY_LEFTBRACE, KEY_RIGHTBRACE, KEY_S, KEY_D, KEY_F, KEY_G, KEY_H, KEY_J, KEY_K, KEY_L,
    KEY_SEMICOLON, KEY_APOSTROPHE, KEY_Z, KEY_X, KEY_C, KEY_V, KEY_B, KEY_N, KEY_M, KEY_COMMA,
    KEY_DOT, KEY_SLASH,
];

fn active_toggle() -> ToggleState {
    let mut t = ToggleState::new();
    assert!(t.on_hotkey_release());
    t
}

fn run_batch(t: &mut ToggleState, held: Vec<u16>, events: Vec<LogicalEvent>) -> BatchOutput {
    let snapshot = KeyStateSnapshot::new(held);
    process_batch(t, &snapshot, &events)
}

#[test]
fn remap_covered_block_examples() {
    assert_eq!(remap(KEY_Q), KEY_APOSTROPHE);
    assert_eq!(remap(KEY_W), KEY_COMMA);
    assert_eq!(remap(KEY_E), KEY_DOT);
    assert_eq!(remap(KEY_R), KEY_P);
    assert_eq!(remap(KEY_MINUS), KEY_LEFTBRACE);
    assert_eq!(remap(KEY_SLASH), KEY_Z);
    assert_eq!(remap(KEY_M), KEY_M);
}

#[test]
fn remap_is_bijection_on_covered_block() {
    let mut images: Vec<u16> = COVERED.iter().map(|&k| remap(k)).collect();
    for img in &images {
        assert!(COVERED.contains(img));
    }
    images.sort();
    images.dedup();
    assert_eq!(images.len(), COVERED.len());
}

#[test]
fn remap_identity_outside_coverage() {
    for k in 0..KEY_CODE_COUNT {
        if !COVERED.contains(&k) {
            assert_eq!(remap(k), k);
        }
    }
    assert_eq!(remap(KEY_A), KEY_A);
    assert_eq!(remap(KEY_CAPSLOCK), KEY_CAPSLOCK);
    assert_eq!(remap(u16::MAX), u16::MAX);
}

#[test]
fn scenario_remap_under_active_layout_no_bypass() {
    let mut t = active_toggle();
    let out = run_batch(&mut t, vec![], vec![LogicalEvent::key(KEY_Q, KEY_PRESS)]);
    assert_eq!(out.forwarded, vec![LogicalEvent::key(KEY_APOSTROPHE, KEY_PRESS)]);
    assert!(out.led_sync.is_empty());
    assert!(t.is_active());
}

#[test]
fn scenario_bypass_suppresses_remap() {
    let mut t = active_toggle();
    let out = run_batch(&mut t, vec![KEY_LEFTCTRL], vec![LogicalEvent::key(KEY_Q, KEY_PRESS)]);
    assert_eq!(out.forwarded, vec![LogicalEvent::key(KEY_Q, KEY_PRESS)]);
    let out = run_batch(&mut t, vec![KEY_A, KEY_RIGHTCTRL], vec![LogicalEvent::key(KEY_Q, KEY_PRESS)]);
    assert_eq!(out.forwarded, vec![LogicalEvent::key(KEY_Q, KEY_PRESS)]);
}

#[test]
fn scenario_hotkey_toggles_and_emits_led() {
    let mut t = ToggleState::new();
    let out = run_batch(&mut t, vec![], vec![LogicalEvent::key(HOTKEY, KEY_RELEASE)]);
    assert!(out.forwarded.is_empty());
    assert!(t.is_active());
    assert_eq!(out.led_sync, vec![LogicalEvent::new(EV_LED, LED_CAPSL, LED_MAX_BRIGHTNESS)]);
    assert_eq!(LED_MAX_BRIGHTNESS, i32::MAX);
}

#[test]
fn hotkey_release_deactivates_with_dark_led() {
    let mut t = active_toggle();
    let out = run_batch(&mut t, vec![], vec![LogicalEvent::key(HOTKEY, KEY_RELEASE)]);
    assert!(!t.is_active());
    assert_eq!(out.led_sync, vec![LogicalEvent::new(EV_LED, LED_CAPSL, 0)]);
}

#[test]
fn hotkey_press_and_repeat_do_not_toggle() {
    let mut t = ToggleState::new();
    let events = vec![LogicalEvent::key(HOTKEY, KEY_PRESS), LogicalEvent::key(HOTKEY, KEY_REPEAT)];
    let out = run_batch(&mut t, vec![], events);
    assert!(!t.is_active());
    assert!(out.forwarded.is_empty());
    assert!(out.led_sync.is_empty());
}

#[test]
fn hotkey_releases_parity() {
    for n in 0..6usize {
        let mut t = ToggleState::new();
        let out = run_batch(&mut t, vec![], vec![LogicalEvent::key(HOTKEY, KEY_RELEASE); n]);
        assert_eq!(t.is_active(), n % 2 == 1);
        assert_eq!(out.led_sync.len(), n);
        for (j, led) in out.led_sync.iter().enumerate() {
            assert_eq!(*led, led_sync(j % 2 == 0));
        }
    }
}

#[test]
fn bypass_passes_batch_minus_sync() {
    let events = vec![
        LogicalEvent::key(KEY_Q, KEY_PRESS),
        LogicalEvent::sync(),
        LogicalEvent::key(KEY_W, KEY_REPEAT),
        LogicalEvent::new(EV_LED, LED_CAPSL, 1),
        LogicalEvent::key(KEY_Q, KEY_RELEASE),
        LogicalEvent::sync(),
    ];
    let expected: Vec<LogicalEvent> = events.iter().copied().filter(|e| e.category != EV_SYN).collect();
    for start_active in [false, true] {
        let mut t = if start_active { active_toggle() } else { ToggleState::new() };
        let out = run_batch(&mut t, vec![KEY_LEFTCTRL], events.clone());
        assert_eq!(out.forwarded, expected);
        assert!(out.led_sync.is_empty());
        assert_eq!(t.is_active(), start_active);
    }
}

#[test]
fn inactive_layout_forwards_unchanged() {
    let mut t = ToggleState::new();
    let events = vec![LogicalEvent::key(KEY_Q, KEY_PRESS), LogicalEvent::key(KEY_Z, KEY_RELEASE)];
    let out = run_batch(&mut t, vec![], events.clone());
    assert_eq!(out.forwarded, events);
}

#[test]
fn ordering_preserved_under_active_layout() {
    let mut t = active_toggle();
    let events = vec![
        LogicalEvent::key(KEY_Q, KEY_PRESS),
        LogicalEvent::sync(),
        LogicalEvent::key(KEY_W, KEY_PRESS),
        LogicalEvent::key(KEY_E, KEY_PRESS),
        LogicalEvent::sync(),
    ];
    let out = run_batch(&mut t, vec![KEY_A], events);
    assert_eq!(
        out.forwarded,
        vec![
            LogicalEvent::key(KEY_APOSTROPHE, KEY_PRESS),
            LogicalEvent::key(KEY_COMMA, KEY_PRESS),
            LogicalEvent::key(KEY_DOT, KEY_PRESS),
        ]
    );
}

#[test]
fn toggle_mid_batch_applies_to_following_events() {
    let mut t = ToggleState::new();
    let events = vec![
        LogicalEvent::key(KEY_Q, KEY_PRESS),
        LogicalEvent::key(HOTKEY, KEY_PRESS),
        LogicalEvent::key(HOTKEY, KEY_RELEASE),
        LogicalEvent::key(KEY_Q, KEY_PRESS),
    ];
    let out = run_batch(&mut t, vec![], events);
    assert_eq!(
        out.forwarded,
        vec![LogicalEvent::key(KEY_Q, KEY_PRESS), LogicalEvent::key(KEY_APOSTROPHE, KEY_PRESS)]
    );
    assert_eq!(out.led_sync, vec![led_sync(true)]);
}

#[test]
fn led_events_pass_unchanged_under_active_layout() {
    let e = LogicalEvent::new(EV_LED, KEY_Q, 1);
    assert_eq!(translate_event(e, true, false), e);
    let k = LogicalEvent::key(KEY_Q, KEY_PRESS);
    assert_eq!(translate_event(k, true, false), LogicalEvent::key(KEY_APOSTROPHE, KEY_PRESS));
    assert_eq!(translate_event(k, true, true), k);
    assert_eq!(translate_event(k, false, false), k);
}

#[test]
fn bypass_detection() {
    assert!(!is_bypass_active(&KeyStateSnapshot::empty()));
    assert!(!is_bypass_active(&KeyStateSnapshot::new(vec![KEY_A, KEY_Q])));
    assert!(is_bypass_active(&KeyStateSnapshot::new(vec![KEY_LEFTCTRL])));
    assert!(is_bypass_active(&KeyStateSnapshot::new(vec![KEY_Q, KEY_RIGHTCTRL])));
    let s = KeyStateSnapshot::new(vec![KEY_A, KEY_Q]);
    assert!(s.contains(KEY_Q));
    assert!(!s.contains(KEY_W));
}

#[test]
fn toggle_state_flips() {
    let mut t = ToggleState::new();
    assert!(!t.is_active());
    assert!(t.on_hotkey_release());
    assert!(t.is_active());
    assert!(!t.on_hotkey_release());
    assert!(!t.is_active());
}

#[test]
fn event_constructors() {
    assert_eq!(LogicalEvent::key(KEY_Q, 1), LogicalEvent { category: EV_KEY, code: 16, value: 1 });
    assert_eq!(LogicalEvent::sync(), LogicalEvent { category: EV_SYN, code: 0, value: 0 });
    assert_eq!(led_sync(true), LogicalEvent { category: 0x11, code: 1, value: i32::MAX });
    assert_eq!(led_sync(false), LogicalEvent { category: 0x11, code: 1, value: 0 });
    assert_eq!(KEY_CAPSLOCK, 58);
}

#[test]
fn capability_set_spans_key_range() {
    let codes = capability_codes();
    assert_eq!(codes.len(), 0x23e);
    assert_eq!(codes.len(), KEY_CODE_COUNT as usize);
    for (i, c) in codes.iter().enumerate() {
        assert_eq!(*c as usize, i);
    }
}
