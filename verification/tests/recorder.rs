use tinytask::models::{HotkeyConfig, KeyCombo, MacroEvent, MacroRecording, RecordFilter};
use tinytask::recorder::{recordable_device, save_check, RecordSession};

#[test]
fn recordable_devices() {
    assert!(recordable_device("event2", Some("Logitech USB Mouse"), false, true, false));
    assert!(recordable_device("event9", Some("Wacom Tablet"), false, false, true));
    assert!(!recordable_device("event1", Some("Power Button"), true, false, false));
    assert!(!recordable_device("event1", Some("Lid Switch"), true, false, false));
    assert!(!recordable_device("event1", Some("VIDEO bus"), true, false, false));
    assert!(!recordable_device("event1", Some("keyboard"), false, false, false));
    assert!(!recordable_device("js0", Some("keyboard"), true, false, false));
    assert!(recordable_device("event0", None, true, false, false));
}

#[test]
fn capture_keeps_events_only_while_active() {
    let hk = HotkeyConfig::default();
    let mut s = RecordSession::new();
    assert!(!s.capture(1, 30, 1, 1_000_000, &hk));
    s.start(1_000_000_000);
    assert!(s.capture(1, 30, 1, 1_000_250_000, &hk));
    assert!(!s.capture(0, 0, 0, 1_000_260_000, &hk)); // synchronisation markers are skipped
    assert!(s.capture(2, 0, 5, 1_000_300_500, &hk));
    assert_eq!(
        s.buffer,
        vec![
            MacroEvent { timestamp_us: 250, event_type: 1, code: 30, value: 1 },
            MacroEvent { timestamp_us: 300, event_type: 2, code: 0, value: 5 },
        ]
    );
    let mut rec = MacroRecording::with_created_at("untitled".to_string(), 7);
    assert_eq!(s.stop(&mut rec), (2, 300));
    assert_eq!(rec.events.len(), 2);
    assert_eq!(rec.duration_us, 300);
    assert_eq!(rec.created_at, 7);
    assert!(!s.capture(1, 30, 0, 1_000_400_000, &hk));
    s.start(2_000_000_000);
    assert!(s.buffer.is_empty());
}

#[test]
fn capture_follows_the_record_filter() {
    let hk = HotkeyConfig::default();
    let mut s = RecordSession::new();
    s.set_filter(RecordFilter { keyboard: false, mouse: true });
    s.start(0);
    assert!(!s.capture(1, 30, 1, 1_000, &hk));
    assert!(s.capture(2, 0, 1, 2_000, &hk));
    assert!(s.capture(3, 0, 1, 3_000, &hk));
    assert!(s.capture(4, 4, 1, 4_000, &hk));
    assert_eq!(s.buffer.len(), 3);
}

#[test]
fn empty_recordings_are_not_saved() {
    let rec = MacroRecording::with_created_at("x".to_string(), 0);
    assert_eq!(save_check(&rec).unwrap_err(), "No events to save!");
    let mut full = MacroRecording::with_created_at("x".to_string(), 0);
    full.events.push(MacroEvent { timestamp_us: 1, event_type: 1, code: 30, value: 1 });
    assert!(save_check(&full).is_ok());
}

fn key(code: u16, value: i32, t_us: u64) -> MacroEvent {
    MacroEvent { timestamp_us: t_us, event_type: 1, code, value }
}

#[test]
fn hotkey_presses_are_left_out_of_recordings() {
    let hk = HotkeyConfig::default();
    let mut s = RecordSession::new();
    s.start(0);
    assert!(s.capture(1, 29, 1, 1_000, &hk)); // Ctrl down
    assert!(s.capture(1, 56, 1, 2_000, &hk)); // Alt down
    assert!(s.capture(1, 30, 1, 3_000, &hk)); // A down
    assert!(s.capture(1, 30, 0, 4_000, &hk)); // A up
    assert!(s.capture(1, 42, 1, 5_000, &hk)); // Shift down
    assert!(!s.capture(1, 19, 1, 6_000, &hk)); // R fires the record hotkey
    // the chord's holds already captured are gone; the A tap stays
    assert_eq!(s.buffer, vec![key(30, 1, 3), key(30, 0, 4)]);
    assert!(!s.capture(1, 19, 0, 7_000, &hk));
    assert!(!s.capture(1, 42, 0, 8_000, &hk));
    assert!(!s.capture(1, 56, 0, 9_000, &hk));
    assert!(!s.capture(1, 29, 0, 10_000, &hk));
    assert_eq!(s.buffer.len(), 2);
    // once released, the same keys are recorded again
    assert!(s.capture(1, 42, 1, 11_000, &hk));
    assert!(s.capture(1, 42, 0, 12_000, &hk));
    assert_eq!(s.buffer, vec![key(30, 1, 3), key(30, 0, 4), key(42, 1, 11), key(42, 0, 12)]);
}

#[test]
fn earlier_taps_of_hotkey_keys_stay() {
    let hk = HotkeyConfig::default();
    let mut s = RecordSession::new();
    s.start(0);
    assert!(s.capture(1, 42, 1, 1_000, &hk)); // Shift tap
    assert!(s.capture(1, 42, 0, 2_000, &hk));
    assert!(s.capture(1, 29, 1, 3_000, &hk));
    assert!(s.capture(1, 56, 1, 4_000, &hk));
    assert!(s.capture(1, 42, 1, 5_000, &hk));
    assert!(!s.capture(1, 31, 1, 6_000, &hk)); // Ctrl+Alt+Shift+S: stop
    assert_eq!(s.buffer, vec![key(42, 1, 1), key(42, 0, 2)]);
}

#[test]
fn a_single_key_hotkey_is_dropped_with_its_release() {
    let mut hk = HotkeyConfig::default();
    hk.stop = KeyCombo { ctrl: false, alt: false, shift: false, super_key: false, key_code: 66 };
    let mut s = RecordSession::new();
    s.start(0);
    assert!(s.capture(2, 0, 3, 1_000, &hk));
    assert!(!s.capture(1, 66, 1, 2_000, &hk)); // F8
    assert!(!s.capture(0, 0, 0, 2_500, &hk));
    assert!(!s.capture(1, 66, 0, 3_000, &hk));
    assert!(s.capture(1, 30, 1, 4_000, &hk));
    assert_eq!(s.buffer, vec![MacroEvent { timestamp_us: 1, event_type: 2, code: 0, value: 3 }, key(30, 1, 4)]);
}

#[test]
fn a_hotkey_held_across_the_start_is_not_recorded() {
    let hk = HotkeyConfig::default();
    let mut s = RecordSession::new();
    assert!(!s.capture(1, 29, 1, 1_000, &hk));
    assert!(!s.capture(1, 56, 1, 2_000, &hk));
    assert!(!s.capture(1, 42, 1, 3_000, &hk));
    assert!(!s.capture(1, 19, 1, 4_000, &hk)); // the record hotkey, pressed while idle
    s.start(5_000);
    assert!(!s.capture(1, 19, 0, 6_000, &hk));
    assert!(!s.capture(1, 42, 0, 7_000, &hk));
    assert!(!s.capture(1, 56, 0, 8_000, &hk));
    assert!(!s.capture(1, 29, 0, 9_000, &hk));
    assert!(s.capture(1, 30, 1, 10_000, &hk));
    assert_eq!(s.buffer, vec![key(30, 1, 5)]);
}
