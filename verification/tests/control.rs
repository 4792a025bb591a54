use std::collections::HashSet;
use tinytask::control::{
    applied_loop_count, assign_hotkey, capture_key_code, captured_combo, control_buttons,
    defaults_keeping_lang, hotkey_device, hotkey_outcome, note_key_event, play_button_action,
    record_button_action, record_filter_change, recording_just_ended, route_command,
    set_config_lang, state_badge_key, ButtonAction, CaptureKey, CommandKind, ControlCommand, Route,
    CAPTURE_KEYS,
};
use tinytask::i18n::Lang;
use tinytask::models::{AppState, HotkeyAction, HotkeyConfig, KeyCombo, RecordFilter};

fn held(codes: &[u16]) -> HashSet<u16> {
    codes.iter().copied().collect()
}

#[test]
fn key_events_update_the_held_set() {
    let mut p = HashSet::new();
    note_key_event(&mut p, 30, 1);
    note_key_event(&mut p, 31, 1);
    note_key_event(&mut p, 30, 2);
    assert_eq!(p, held(&[30, 31]));
    note_key_event(&mut p, 30, 0);
    assert_eq!(p, held(&[31]));
}

#[test]
fn record_hotkey_toggles_recording() {
    let cfg = HotkeyConfig::default();
    let p = held(&[29, 56, 42, 19]);
    let o = hotkey_outcome(&cfg, &p, 1, 500, AppState::Idle);
    assert_eq!(o.command, Some(ControlCommand::StartRecording));
    assert!(o.fired && !o.raise_stop);
    let o = hotkey_outcome(&cfg, &p, 1, 500, AppState::Recording);
    assert_eq!(o.command, Some(ControlCommand::StopRecording));
    let o = hotkey_outcome(&cfg, &p, 1, 500, AppState::Playing);
    assert_eq!(o.command, None);
    assert!(o.fired);
}

#[test]
fn hotkeys_respect_debounce_and_press_only() {
    let cfg = HotkeyConfig::default();
    let p = held(&[29, 56, 42, 25]);
    let o = hotkey_outcome(&cfg, &p, 1, 200, AppState::Idle);
    assert!(!o.fired && o.command.is_none());
    let o = hotkey_outcome(&cfg, &p, 2, 999, AppState::Idle);
    assert!(!o.fired);
    let o = hotkey_outcome(&cfg, &p, 1, 201, AppState::Idle);
    assert_eq!(o.command, Some(ControlCommand::StartPlayback));
    let o = hotkey_outcome(&cfg, &p, 1, 201, AppState::Recording);
    assert!(o.fired && o.command.is_none());
}

#[test]
fn stop_hotkey_raises_the_flag_only_while_playing() {
    let cfg = HotkeyConfig::default();
    let p = held(&[97, 100, 54, 31]);
    let o = hotkey_outcome(&cfg, &p, 1, 1_000, AppState::Playing);
    assert_eq!(o.command, Some(ControlCommand::StopPlayback));
    assert!(o.raise_stop && o.fired);
    let o = hotkey_outcome(&cfg, &p, 1, 1_000, AppState::Idle);
    assert!(!o.raise_stop && o.command.is_none() && o.fired);
    let none = hotkey_outcome(&cfg, &held(&[31]), 1, 1_000, AppState::Playing);
    assert!(!none.fired && !none.raise_stop);
}

#[test]
fn hotkey_devices() {
    assert!(hotkey_device("event3", Some("AT Translated Set 2 keyboard"), true));
    assert!(!hotkey_device("event3", Some("Power Button"), true));
    assert!(!hotkey_device("event4", Some("Video Bus"), true));
    assert!(hotkey_device("event5", Some("Lid Switch"), true));
    assert!(!hotkey_device("mouse0", Some("keyboard"), true));
    assert!(!hotkey_device("event6", Some("mouse"), false));
    assert!(hotkey_device("event7", None, true));
}

#[test]
fn dispatcher_routes() {
    assert_eq!(route_command(CommandKind::StartRecording), Route::Recorder);
    assert_eq!(route_command(CommandKind::LoadMacro), Route::Recorder);
    assert_eq!(route_command(CommandKind::SetRecordFilter), Route::Recorder);
    assert_eq!(route_command(CommandKind::StopPlayback), Route::Player);
    assert_eq!(route_command(CommandKind::SetSpeedMultiplier), Route::Player);
    assert_eq!(route_command(CommandKind::SaveConfig), Route::Nowhere);
    assert_eq!(route_command(CommandKind::SetHotkey), Route::Nowhere);
    assert_eq!(route_command(CommandKind::Quit), Route::Shutdown);
}

#[test]
fn hand_over_only_after_recording() {
    assert!(recording_just_ended(AppState::Recording, AppState::Idle));
    assert!(!recording_just_ended(AppState::Idle, AppState::Idle));
    assert!(!recording_just_ended(AppState::Playing, AppState::Idle));
    assert!(!recording_just_ended(AppState::Recording, AppState::Recording));
}

#[test]
fn buttons_follow_the_state() {
    let b = control_buttons(AppState::Idle, 0);
    assert_eq!((b.record_key, b.record_enabled, b.play_key, b.play_enabled), ("rec_idle", true, "play_idle", false));
    let b = control_buttons(AppState::Idle, 5);
    assert!(b.play_enabled);
    let b = control_buttons(AppState::Recording, 5);
    assert_eq!((b.record_key, b.play_key, b.play_enabled), ("btn_stop", "play_idle", false));
    let b = control_buttons(AppState::Playing, 0);
    assert_eq!((b.record_key, b.play_key, b.play_enabled), ("btn_stop", "btn_stop", true));
    assert_eq!(record_button_action(AppState::Idle), ButtonAction::Send(ControlCommand::StartRecording));
    assert_eq!(record_button_action(AppState::Recording), ButtonAction::Send(ControlCommand::StopRecording));
    assert_eq!(record_button_action(AppState::Playing), ButtonAction::RequestStop);
    assert_eq!(play_button_action(AppState::Idle), ButtonAction::Send(ControlCommand::StartPlayback));
    assert_eq!(play_button_action(AppState::Playing), ButtonAction::RequestStop);
    assert_eq!(state_badge_key(AppState::Recording), "state_recording");
}

#[test]
fn loop_and_filter_settings() {
    assert_eq!(applied_loop_count(true, 12), 0);
    assert_eq!(applied_loop_count(false, 12), 12);
    let both = RecordFilter { keyboard: true, mouse: true };
    let none = RecordFilter { keyboard: false, mouse: false };
    let mouse = RecordFilter { keyboard: false, mouse: true };
    assert_eq!(record_filter_change(both, both), None);
    assert_eq!(record_filter_change(both, mouse), Some(mouse));
    assert_eq!(record_filter_change(mouse, none), Some(RecordFilter { keyboard: true, mouse: false }));
}

#[test]
fn captured_keys_and_combos() {
    assert_eq!(CAPTURE_KEYS.len(), 63);
    assert_eq!(CAPTURE_KEYS[0], CaptureKey::A);
    assert_eq!(capture_key_code(CaptureKey::F8), 66);
    assert_eq!(capture_key_code(CaptureKey::Num0), 11);
    assert_eq!(capture_key_code(CaptureKey::ArrowRight), 106);
    let combo = captured_combo(true, false, true, CaptureKey::R);
    assert_eq!(combo.to_string(), "Ctrl+Shift+R");
    assert!(!combo.super_key);
    assert_eq!(captured_combo(false, false, false, CaptureKey::F12).to_string(), "F12");
    // every assignable key except the digit row has a display name
    for k in CAPTURE_KEYS.iter() {
        let name = captured_combo(false, false, false, *k).to_string();
        let digit = matches!(
            k,
            CaptureKey::Num0 | CaptureKey::Num1 | CaptureKey::Num2 | CaptureKey::Num3 | CaptureKey::Num4
                | CaptureKey::Num5 | CaptureKey::Num6 | CaptureKey::Num7 | CaptureKey::Num8 | CaptureKey::Num9
        );
        assert_eq!(name.starts_with("Key"), digit, "{:?} shown as {}", k, name);
    }
}

#[test]
fn settings_updates() {
    let mut cfg = HotkeyConfig::default();
    cfg.recent_files.push("/a.tts".to_string());
    let f8 = KeyCombo { ctrl: false, alt: false, shift: false, super_key: false, key_code: 66 };
    assign_hotkey(&mut cfg, HotkeyAction::Stop, f8);
    assert_eq!(cfg.stop.key_code, 66);
    assert_eq!(cfg.record.key_code, 19);
    assert_eq!(cfg.recent_files.len(), 1);
    set_config_lang(&mut cfg, Lang::De);
    assert_eq!(cfg.lang, "de");
    let reset = defaults_keeping_lang(Lang::Pl);
    assert_eq!(reset.lang, "pl");
    assert_eq!(reset.stop.key_code, 31);
}
