use std::collections::HashSet;
use tinytask::models::{
    check_macro_path, chord_modifier_codes, hotkey_action_for, macro_format_for, record_filter_allows,
    recording_duration, HotkeyAction, HotkeyConfig, KeyCombo, MacroEvent, MacroFile, MacroFormat,
    MacroRecording, RecordFilter, EV_ABS, EV_KEY, EV_REL,
};

fn sample_recording() -> MacroRecording {
    let mut rec = MacroRecording::new("test".to_string());
    rec.events = vec![
        MacroEvent { timestamp_us: 100_000, event_type: 1, code: 30, value: 1 },
        MacroEvent { timestamp_us: 150_000, event_type: 1, code: 30, value: 0 },
    ];
    rec.duration_us = 150_000;
    rec
}

#[test]
fn rejects_path_traversal() {
    assert!(check_macro_path("/tmp/../etc/evil.tts").is_err());
    assert!(check_macro_path("../evil.tts").is_err());
}

#[test]
fn single_key_combo_matches() {
    let combo = KeyCombo { ctrl: false, alt: false, shift: false, super_key: false, key_code: 66 };
    assert_eq!(combo.to_string(), "F8");
    let mut pressed = HashSet::new();
    pressed.insert(66u16);
    assert!(combo.matches(&pressed));
    pressed.insert(29u16);
    assert!(!combo.matches(&pressed));
}

#[test]
fn recent_list_dedupe_and_cap() {
    let mut list = Vec::new();
    HotkeyConfig::push_recent(&mut list, "/a/x.tts");
    HotkeyConfig::push_recent(&mut list, "/a/y.tts");
    HotkeyConfig::push_recent(&mut list, "/a/x.tts");
    assert_eq!(list, vec!["/a/x.tts".to_string(), "/a/y.tts".to_string()]);
    for i in 0..20 {
        HotkeyConfig::push_recent(&mut list, &format!("/a/{}.tts", i));
    }
    assert_eq!(list.len(), HotkeyConfig::RECENT_MAX);
    assert_eq!(list[0], "/a/19.tts");
}

#[test]
fn record_filter_allows_types() {
    let all = RecordFilter::default();
    assert!(record_filter_allows(&all, EV_KEY));
    assert!(record_filter_allows(&all, EV_REL));
    assert!(record_filter_allows(&all, EV_ABS));
    let no_mouse = RecordFilter { keyboard: true, mouse: false };
    assert!(record_filter_allows(&no_mouse, EV_KEY));
    assert!(!record_filter_allows(&no_mouse, EV_REL));
    assert!(!record_filter_allows(&no_mouse, EV_ABS));
    assert!(record_filter_allows(&no_mouse, 4));
}

#[test]
fn hotkey_action_detection() {
    let cfg = HotkeyConfig::default();
    let mut pressed: HashSet<u16> = [29, 56, 42, 19].into_iter().collect();
    assert_eq!(hotkey_action_for(&cfg, &pressed), Some(HotkeyAction::Record));
    pressed.remove(&19);
    pressed.insert(25);
    assert_eq!(hotkey_action_for(&cfg, &pressed), Some(HotkeyAction::Play));
    pressed.clear();
    pressed.insert(30);
    assert_eq!(hotkey_action_for(&cfg, &pressed), None);
    let single = KeyCombo { ctrl: false, alt: false, shift: false, super_key: false, key_code: 66 };
    let cfg2 = HotkeyConfig {
        record: single,
        play: cfg.play.clone(),
        stop: cfg.stop.clone(),
        lang: "en".into(),
        recent_files: vec![],
    };
    let mut p2: HashSet<u16> = HashSet::new();
    p2.insert(66);
    assert_eq!(hotkey_action_for(&cfg2, &p2), Some(HotkeyAction::Record));
}

#[test]
fn chord_codes_cover_required_modifiers() {
    let combo = KeyCombo { ctrl: true, alt: true, shift: true, super_key: false, key_code: 19 };
    let codes = chord_modifier_codes(&combo);
    assert!(codes.contains(&29) && codes.contains(&56) && codes.contains(&42));
    assert!(!codes.contains(&125));
    let single = KeyCombo { ctrl: false, alt: false, shift: false, super_key: false, key_code: 66 };
    assert!(chord_modifier_codes(&single).is_empty());
}

#[test]
fn chord_codes_exact_order() {
    let combo = KeyCombo { ctrl: true, alt: false, shift: true, super_key: true, key_code: 19 };
    assert_eq!(chord_modifier_codes(&combo), vec![29, 97, 42, 54, 125, 126]);
}

#[test]
fn combo_names() {
    assert_eq!(KeyCombo::new(19).to_string(), "Ctrl+Alt+Shift+R");
    let all_mods = KeyCombo { ctrl: true, alt: true, shift: true, super_key: true, key_code: 111 };
    assert_eq!(all_mods.to_string(), "Ctrl+Alt+Shift+Super+Delete");
    let unnamed = KeyCombo { ctrl: false, alt: true, shift: false, super_key: false, key_code: 2 };
    assert_eq!(unnamed.to_string(), "Alt+Key2");
    let big = KeyCombo { ctrl: false, alt: false, shift: false, super_key: false, key_code: 65535 };
    assert_eq!(big.to_string(), "Key65535");
}

#[test]
fn combo_matching_is_strict_and_accepts_either_side() {
    let combo = KeyCombo::new(25);
    let right_side: HashSet<u16> = [97, 100, 54, 25].into_iter().collect();
    assert!(combo.matches(&right_side));
    let with_super: HashSet<u16> = [29, 56, 42, 25, 126].into_iter().collect();
    assert!(!combo.matches(&with_super));
    let missing_shift: HashSet<u16> = [29, 56, 25].into_iter().collect();
    assert!(!combo.matches(&missing_shift));
    let without_key: HashSet<u16> = [29, 56, 42].into_iter().collect();
    assert!(!combo.matches(&without_key));
}

#[test]
fn record_hotkey_wins_over_play_and_stop() {
    let same = KeyCombo::new(31);
    let cfg = HotkeyConfig { record: same.clone(), play: same.clone(), stop: same, lang: "en".into(), recent_files: vec![] };
    let pressed: HashSet<u16> = [29, 56, 42, 31].into_iter().collect();
    assert_eq!(hotkey_action_for(&cfg, &pressed), Some(HotkeyAction::Record));
    let stop_only = HotkeyConfig::default();
    assert_eq!(hotkey_action_for(&stop_only, &pressed), Some(HotkeyAction::Stop));
}

#[test]
fn default_config_values() {
    let cfg = HotkeyConfig::default();
    assert_eq!(cfg.record.key_code, 19);
    assert_eq!(cfg.play.key_code, 25);
    assert_eq!(cfg.stop.key_code, 31);
    assert!(cfg.stop.ctrl && cfg.stop.alt && cfg.stop.shift && !cfg.stop.super_key);
    assert_eq!(cfg.lang, "en");
    assert!(cfg.recent_files.is_empty());
    assert_eq!(tinytask::models::default_lang_code(), "en");
}

#[test]
fn recent_list_moves_existing_entry_to_front_and_cuts() {
    let mut list: Vec<String> = (0..8).map(|i| format!("/m/{}.tts", i)).collect();
    HotkeyConfig::push_recent(&mut list, "/m/5.tts");
    assert_eq!(list.len(), 8);
    assert_eq!(list[0], "/m/5.tts");
    assert_eq!(list[1], "/m/0.tts");
    assert_eq!(list[7], "/m/7.tts");
    HotkeyConfig::push_recent(&mut list, "/m/new.tts");
    assert_eq!(list.len(), 8);
    assert_eq!(list[0], "/m/new.tts");
    assert_eq!(list[1], "/m/5.tts");
    assert!(!list.contains(&"/m/7.tts".to_string()));
}

#[test]
fn event_timestamps_from_clock_readings() {
    let e = MacroEvent::from_evdev(1, 30, 1, 5_000_123_999, 5_000_000_000);
    assert_eq!(e, MacroEvent { timestamp_us: 123, event_type: 1, code: 30, value: 1 });
    let early = MacroEvent::from_evdev(2, 0, -4, 1_000, 2_000);
    assert_eq!(early.timestamp_us, 0);
    assert_eq!(early.value, -4);
}

#[test]
fn duration_is_last_timestamp() {
    let rec = sample_recording();
    assert_eq!(recording_duration(&rec.events), 150_000);
    assert_eq!(recording_duration(&Vec::new()), 0);
}

#[test]
fn file_record_roundtrip_keeps_recording() {
    let rec = sample_recording();
    let file = MacroFile::from_recording(&rec);
    assert_eq!(file.version, MacroFile::CURRENT_VERSION);
    assert_eq!(file.event_count, 2);
    let back = file.into_recording().unwrap();
    assert_eq!(back.name, "test");
    assert_eq!(back.duration_us, 150_000);
    assert_eq!(back.created_at, rec.created_at);
    assert_eq!(back.events, rec.events);
}

#[test]
fn newer_file_version_is_refused() {
    let mut file = MacroFile::from_recording(&sample_recording());
    file.version = 7;
    let err = file.into_recording().unwrap_err();
    assert_eq!(err, "Unsupported file version: 7 (max 1)");
}

#[test]
fn legacy_event_list_is_imported() {
    let events = sample_recording().events;
    let file = MacroFile::from_legacy_events(events, 42);
    assert_eq!(file.version, 1);
    assert_eq!(file.name, "imported");
    assert_eq!(file.created_at, 42);
    assert_eq!(file.duration_us, 150_000);
    assert_eq!(file.event_count, 2);
    let empty = MacroFile::from_legacy_events(Vec::new(), 0);
    assert_eq!(empty.duration_us, 0);
}

#[test]
fn macro_paths_and_formats() {
    assert_eq!(check_macro_path("/tmp/../etc/evil.tts").unwrap_err(), "Invalid file path (must not contain ..)");
    assert!(check_macro_path("/home/u/macros/a.b.tts").is_ok());
    assert!(check_macro_path("/home/u/..hidden").is_err());
    assert_eq!(macro_format_for("/tmp/m.json"), MacroFormat::Json);
    assert_eq!(macro_format_for("/tmp/m.tts"), MacroFormat::Binary);
    assert_eq!(macro_format_for("/tmp/m.json.bak"), MacroFormat::Binary);
    assert_eq!(macro_format_for(".json"), MacroFormat::Json);
}

#[test]
fn new_recording_is_empty() {
    let rec = MacroRecording::new("untitled".to_string());
    assert_eq!(rec.name, "untitled");
    assert_eq!(rec.duration_us, 0);
    assert!(rec.events.is_empty());
    let at = MacroRecording::with_created_at("x".to_string(), 99);
    assert_eq!(at.created_at, 99);
}
