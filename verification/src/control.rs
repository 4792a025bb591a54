//! Decision logic around the recorder and player: the hotkey listener, the
//! command dispatcher, the recording-to-player hand-over, and the control
//! screen's buttons and settings.
use std::collections::HashSet;
use vstd::prelude::*;
use vstd::string::*;
use crate::i18n::{Lang, lang_code};
use crate::models::{
    AppState, HotkeyAction, HotkeyConfig, KeyCombo, RecordFilter, default_combo,
    hotkey_action_for, triggered_action,
};
use crate::text::{contains_seq, contains_str, lowercase, starts_with_seq, starts_with_str, to_lowercase};

verus! {

broadcast use vstd::std_specs::hash::group_hash_axioms;

// ---------------------------------------------------------------------------
// Hotkey listener
// ---------------------------------------------------------------------------

/// A hotkey fires at most once per this many milliseconds.
pub const DEBOUNCE_MS: u128 = 200;

/// A lower-cased device name that mentions power or video.
pub open spec fn mentions_power_or_video(lower: Seq<char>) -> bool {
    contains_seq(lower, "power"@) || contains_seq(lower, "video"@)
}

/// Does a lower-cased device name mention power or video?
pub fn mentions_power_or_video_lowered(lower: &str) -> (r: bool)
    ensures
        r == mentions_power_or_video(lower@),
{
    contains_str(lower, "power") || contains_str(lower, "video")
}

/// A device the hotkey listener watches: an `event*` node that sends keys and
/// whose name (lower-cased) mentions neither power nor video.
pub open spec fn is_hotkey_device(file_name: Seq<char>, name: Seq<char>, has_key: bool) -> bool {
    &&& starts_with_seq(file_name, "event"@)
    &&& has_key
    &&& !mentions_power_or_video(lowercase(name))
}

/// Should the hotkey listener watch the device node `file_name`?
pub fn hotkey_device(file_name: &str, device_name: Option<&str>, has_key: bool) -> (r: bool)
    ensures
        r == is_hotkey_device(file_name@, crate::recorder::name_or_empty(device_name), has_key),
{
    if !starts_with_str(file_name, "event") || !has_key {
        return false;
    }
    let name: &str = match device_name {
        Some(n) => n,
        None => "",
    };
    let lower = to_lowercase(name);
    !mentions_power_or_video_lowered(lower.as_str())
}

/// The held keys after a key event: a press (1) adds the key, a release (0)
/// removes it, a repeat (2) changes nothing.
pub open spec fn pressed_after(p: Set<u16>, code: u16, value: i32) -> Set<u16> {
    if value == 1 {
        p.insert(code)
    } else if value == 0 {
        p.remove(code)
    } else {
        p
    }
}

/// Tracks the keys held on the watched keyboards.
pub fn note_key_event(pressed: &mut HashSet<u16>, code: u16, value: i32)
    ensures
        final(pressed)@ == pressed_after(old(pressed)@, code, value),
{
    if value == 1 {
        pressed.insert(code);
    } else if value == 0 {
        pressed.remove(&code);
    }
}

/// A command the hotkeys and buttons send.
#[derive(Debug, Clone, Copy, PartialEq, Eq, Structural)]
pub enum ControlCommand {
    StartRecording,
    StopRecording,
    StartPlayback,
    StopPlayback,
}

/// What a key press does to the hotkey listener.
#[derive(Debug, Clone, Copy, PartialEq, Eq, Structural)]
pub struct HotkeyOutcome {
    /// The command to send, if any.
    pub command: Option<ControlCommand>,
    /// Raise the player's stop flag (before sending the command).
    pub raise_stop: bool,
    /// A hotkey fired: restart the debounce interval.
    pub fired: bool,
}

/// The listener's answer to a key event with the given held keys, `since_ms`
/// milliseconds after the last hotkey fired, in application state `state`.
/// Only a press after the debounce interval can fire; the record hotkey
/// toggles recording, the play hotkey starts playing from idle, and the stop
/// hotkey stops a playback (raising the stop flag first). A hotkey that fires
/// in a state where it has nothing to do still restarts the interval.
pub open spec fn hotkey_answer(
    config: HotkeyConfig,
    p: Set<u16>,
    value: i32,
    since_ms: u128,
    state: AppState,
) -> HotkeyOutcome {
    let quiet = HotkeyOutcome { command: None, raise_stop: false, fired: false };
    if value == 1 && since_ms > DEBOUNCE_MS {
        match triggered_action(config, p) {
            Some(HotkeyAction::Record) => HotkeyOutcome {
                command: if state == AppState::Idle {
                    Some(ControlCommand::StartRecording)
                } else if state == AppState::Recording {
                    Some(ControlCommand::StopRecording)
                } else {
                    None
                },
                raise_stop: false,
                fired: true,
            },
            Some(HotkeyAction::Play) => HotkeyOutcome {
                command: if state == AppState::Idle { Some(ControlCommand::StartPlayback) } else { None },
                raise_stop: false,
                fired: true,
            },
            Some(HotkeyAction::Stop) => HotkeyOutcome {
                command: if state == AppState::Playing { Some(ControlCommand::StopPlayback) } else { None },
                raise_stop: state == AppState::Playing,
                fired: true,
            },
            None => quiet,
        }
    } else {
        quiet
    }
}

/// Decides what a key event does, after `note_key_event` has updated `pressed`.
pub fn hotkey_outcome(
    config: &HotkeyConfig,
    pressed: &HashSet<u16>,
    value: i32,
    since_last_ms: u128,
    state: AppState,
) -> (r: HotkeyOutcome)
    ensures
        r == hotkey_answer(*config, pressed@, value, since_last_ms, state),
{
    let quiet = HotkeyOutcome { command: None, raise_stop: false, fired: false };
    if !(value == 1 && since_last_ms > DEBOUNCE_MS) {
        return quiet;
    }
    match hotkey_action_for(config, pressed) {
        Some(HotkeyAction::Record) => {
            let command = if state == AppState::Idle {
                Some(ControlCommand::StartRecording)
            } else if state == AppState::Recording {
                Some(ControlCommand::StopRecording)
            } else {
                None
            };
            HotkeyOutcome { command, raise_stop: false, fired: true }
        },
        Some(HotkeyAction::Play) => {
            let command = if state == AppState::Idle { Some(ControlCommand::StartPlayback) } else { None };
            HotkeyOutcome { command, raise_stop: false, fired: true }
        },
        Some(HotkeyAction::Stop) => {
            let playing = state == AppState::Playing;
            let command = if playing { Some(ControlCommand::StopPlayback) } else { None };
            HotkeyOutcome { command, raise_stop: playing, fired: true }
        },
        None => quiet,
    }
}

// ---------------------------------------------------------------------------
// Dispatcher and hand-over
// ---------------------------------------------------------------------------

/// The kinds of command the user interface and the hotkeys send.
#[derive(Debug, Clone, Copy, PartialEq, Eq, Structural)]
pub enum CommandKind {
    StartRecording,
    StopRecording,
    StartPlayback,
    StopPlayback,
    SaveMacro,
    LoadMacro,
    SetHotkey,
    SetLoopCount,
    SetSpeedMultiplier,
    SetRecordFilter,
    SaveConfig,
    Quit,
}

/// Where the dispatcher sends a command.
#[derive(Debug, Clone, Copy, PartialEq, Eq, Structural)]
pub enum Route {
    Recorder,
    Player,
    /// Accepted and dropped.
    Nowhere,
    /// Tell both workers to quit, then stop dispatching.
    Shutdown,
}

/// The dispatcher's routing table.
pub open spec fn route_of(kind: CommandKind) -> Route {
    match kind {
        CommandKind::StartRecording | CommandKind::StopRecording | CommandKind::SaveMacro
        | CommandKind::LoadMacro | CommandKind::SetRecordFilter => Route::Recorder,
        CommandKind::StartPlayback | CommandKind::StopPlayback | CommandKind::SetLoopCount
        | CommandKind::SetSpeedMultiplier => Route::Player,
        CommandKind::SetHotkey | CommandKind::SaveConfig => Route::Nowhere,
        CommandKind::Quit => Route::Shutdown,
    }
}

/// Recording, saving and loading go to the recorder; playback and its settings
/// to the player; quitting shuts both down.
pub fn route_command(kind: CommandKind) -> (r: Route)
    ensures
        r == route_of(kind),
{
    match kind {
        CommandKind::StartRecording | CommandKind::StopRecording | CommandKind::SaveMacro
        | CommandKind::LoadMacro | CommandKind::SetRecordFilter => Route::Recorder,
        CommandKind::StartPlayback | CommandKind::StopPlayback | CommandKind::SetLoopCount
        | CommandKind::SetSpeedMultiplier => Route::Player,
        CommandKind::SetHotkey | CommandKind::SaveConfig => Route::Nowhere,
        CommandKind::Quit => Route::Shutdown,
    }
}

/// The player's copy of the events is refreshed exactly when a recording has
/// just ended: the state went from recording to idle.
pub fn recording_just_ended(last: AppState, current: AppState) -> (r: bool)
    ensures
        r == (last == AppState::Recording && current == AppState::Idle),
{
    last == AppState::Recording && current == AppState::Idle
}

// ---------------------------------------------------------------------------
// Control screen
// ---------------------------------------------------------------------------

/// The two main buttons: their string keys and whether they can be pressed.
#[derive(Debug, Clone, Copy)]
pub struct ControlButtons {
    pub record_key: &'static str,
    pub record_enabled: bool,
    pub play_key: &'static str,
    pub play_enabled: bool,
}

/// The record button shows "record" when idle and "stop" otherwise and is
/// always enabled; the play button shows "stop" while playing and "play"
/// otherwise, and is enabled while playing or when idle with events to play.
pub open spec fn buttons_for(state: AppState, event_count: usize) -> ControlButtons {
    ControlButtons {
        record_key: if state == AppState::Idle { "rec_idle" } else { "btn_stop" },
        record_enabled: true,
        play_key: if state == AppState::Playing { "btn_stop" } else { "play_idle" },
        play_enabled: match state {
            AppState::Idle => event_count > 0,
            AppState::Recording => false,
            AppState::Playing => true,
        },
    }
}

/// The labels and states of the record and play buttons.
pub fn control_buttons(state: AppState, event_count: usize) -> (r: ControlButtons)
    ensures
        r == buttons_for(state, event_count),
{
    let record_key = if state == AppState::Idle { "rec_idle" } else { "btn_stop" };
    let play_key = if state == AppState::Playing { "btn_stop" } else { "play_idle" };
    let play_enabled = match state {
        AppState::Idle => event_count > 0,
        AppState::Recording => false,
        AppState::Playing => true,
    };
    ControlButtons { record_key, record_enabled: true, play_key, play_enabled }
}

/// What pressing a button does.
#[derive(Debug, Clone, Copy, PartialEq, Eq, Structural)]
pub enum ButtonAction {
    /// Send the command.
    Send(ControlCommand),
    /// Raise the stop flag and send a stop.
    RequestStop,
}

/// The record button starts a recording when idle, stops it while recording,
/// and stops a playback while playing.
pub fn record_button_action(state: AppState) -> (r: ButtonAction)
    ensures
        r == match state {
            AppState::Idle => ButtonAction::Send(ControlCommand::StartRecording),
            AppState::Recording => ButtonAction::Send(ControlCommand::StopRecording),
            AppState::Playing => ButtonAction::RequestStop,
        },
{
    match state {
        AppState::Idle => ButtonAction::Send(ControlCommand::StartRecording),
        AppState::Recording => ButtonAction::Send(ControlCommand::StopRecording),
        AppState::Playing => ButtonAction::RequestStop,
    }
}

/// The play button starts a playback when idle and stops otherwise.
pub fn play_button_action(state: AppState) -> (r: ButtonAction)
    ensures
        r == (if state == AppState::Idle {
            ButtonAction::Send(ControlCommand::StartPlayback)
        } else {
            ButtonAction::RequestStop
        }),
{
    if state == AppState::Idle {
        ButtonAction::Send(ControlCommand::StartPlayback)
    } else {
        ButtonAction::RequestStop
    }
}

/// The string key of the state badge.
pub fn state_badge_key(state: AppState) -> (r: &'static str)
    ensures
        r == match state {
            AppState::Idle => "state_idle",
            AppState::Recording => "state_recording",
            AppState::Playing => "state_playing",
        },
{
    match state {
        AppState::Idle => "state_idle",
        AppState::Recording => "state_recording",
        AppState::Playing => "state_playing",
    }
}

/// The loop count the loop setting applies: 0 (unlimited) when infinite is
/// ticked, the chosen count otherwise.
pub fn applied_loop_count(infinite: bool, count: u32) -> (r: u32)
    ensures
        r == (if infinite { 0 } else { count }),
{
    if infinite {
        0
    } else {
        count
    }
}

/// After the record-filter boxes were clicked: nothing when unchanged;
/// otherwise the new filter, with the keyboard turned back on when both boxes
/// are off, since at least one class must stay recorded.
pub fn record_filter_change(before: RecordFilter, after: RecordFilter) -> (r: Option<RecordFilter>)
    ensures
        r == (if after == before {
            None
        } else if !after.keyboard && !after.mouse {
            Some(RecordFilter { keyboard: true, mouse: false })
        } else {
            Some(after)
        }),
        r matches Some(f) ==> f.keyboard || f.mouse,
{
    if after.keyboard == before.keyboard && after.mouse == before.mouse {
        None
    } else if !after.keyboard && !after.mouse {
        Some(RecordFilter { keyboard: true, mouse: false })
    } else {
        Some(after)
    }
}

/// The keys a hotkey can be assigned to from the settings screen.
#[derive(Debug, Clone, Copy, PartialEq, Eq, Structural)]
pub enum CaptureKey {
    A,
    B,
    C,
    D,
    E,
    F,
    G,
    H,
    I,
    J,
    K,
    L,
    M,
    N,
    O,
    P,
    Q,
    R,
    S,
    T,
    U,
    V,
    W,
    X,
    Y,
    Z,
    Num0,
    Num1,
    Num2,
    Num3,
    Num4,
    Num5,
    Num6,
    Num7,
    Num8,
    Num9,
    F1,
    F2,
    F3,
    F4,
    F5,
    F6,
    F7,
    F8,
    F9,
    F10,
    F11,
    F12,
    Escape,
    Tab,
    Backspace,
    Enter,
    Space,
    Insert,
    Delete,
    Home,
    End,
    PageUp,
    PageDown,
    ArrowUp,
    ArrowDown,
    ArrowLeft,
    ArrowRight,
}

/// The assignable keys, in the order a frame's key presses are examined.
pub const CAPTURE_KEYS: [CaptureKey; 63] = [
    CaptureKey::A,
    CaptureKey::B,
    CaptureKey::C,
    CaptureKey::D,
    CaptureKey::E,
    CaptureKey::F,
    CaptureKey::G,
    CaptureKey::H,
    CaptureKey::I,
    CaptureKey::J,
    CaptureKey::K,
    CaptureKey::L,
    CaptureKey::M,
    CaptureKey::N,
    CaptureKey::O,
    CaptureKey::P,
    CaptureKey::Q,
    CaptureKey::R,
    CaptureKey::S,
    CaptureKey::T,
    CaptureKey::U,
    CaptureKey::V,
    CaptureKey::W,
    CaptureKey::X,
    CaptureKey::Y,
    CaptureKey::Z,
    CaptureKey::Num0,
    CaptureKey::Num1,
    CaptureKey::Num2,
    CaptureKey::Num3,
    CaptureKey::Num4,
    CaptureKey::Num5,
    CaptureKey::Num6,
    CaptureKey::Num7,
    CaptureKey::Num8,
    CaptureKey::Num9,
    CaptureKey::F1,
    CaptureKey::F2,
    CaptureKey::F3,
    CaptureKey::F4,
    CaptureKey::F5,
    CaptureKey::F6,
    CaptureKey::F7,
    CaptureKey::F8,
    CaptureKey::F9,
    CaptureKey::F10,
    CaptureKey::F11,
    CaptureKey::F12,
    CaptureKey::Escape,
    CaptureKey::Tab,
    CaptureKey::Backspace,
    CaptureKey::Enter,
    CaptureKey::Space,
    CaptureKey::Insert,
    CaptureKey::Delete,
    CaptureKey::Home,
    CaptureKey::End,
    CaptureKey::PageUp,
    CaptureKey::PageDown,
    CaptureKey::ArrowUp,
    CaptureKey::ArrowDown,
    CaptureKey::ArrowLeft,
    CaptureKey::ArrowRight,
];

/// The evdev code of an assignable key.
pub open spec fn capture_code(k: CaptureKey) -> u16 {
    match k {
        CaptureKey::A => 30,
        CaptureKey::B => 48,
        CaptureKey::C => 46,
        CaptureKey::D => 32,
        CaptureKey::E => 18,
        CaptureKey::F => 33,
        CaptureKey::G => 34,
        CaptureKey::H => 35,
        CaptureKey::I => 23,
        CaptureKey::J => 36,
        CaptureKey::K => 37,
        CaptureKey::L => 38,
        CaptureKey::M => 50,
        CaptureKey::N => 49,
        CaptureKey::O => 24,
        CaptureKey::P => 25,
        CaptureKey::Q => 16,
        CaptureKey::R => 19,
        CaptureKey::S => 31,
        CaptureKey::T => 20,
        CaptureKey::U => 22,
        CaptureKey::V => 47,
        CaptureKey::W => 17,
        CaptureKey::X => 45,
        CaptureKey::Y => 21,
        CaptureKey::Z => 44,
        CaptureKey::Num0 => 11,
        CaptureKey::Num1 => 2,
        CaptureKey::Num2 => 3,
        CaptureKey::Num3 => 4,
        CaptureKey::Num4 => 5,
        CaptureKey::Num5 => 6,
        CaptureKey::Num6 => 7,
        CaptureKey::Num7 => 8,
        CaptureKey::Num8 => 9,
        CaptureKey::Num9 => 10,
        CaptureKey::F1 => 59,
        CaptureKey::F2 => 60,
        CaptureKey::F3 => 61,
        CaptureKey::F4 => 62,
        CaptureKey::F5 => 63,
        CaptureKey::F6 => 64,
        CaptureKey::F7 => 65,
        CaptureKey::F8 => 66,
        CaptureKey::F9 => 67,
        CaptureKey::F10 => 68,
        CaptureKey::F11 => 87,
        CaptureKey::F12 => 88,
        CaptureKey::Escape => 1,
        CaptureKey::Tab => 15,
        CaptureKey::Backspace => 14,
        CaptureKey::Enter => 28,
        CaptureKey::Space => 57,
        CaptureKey::Insert => 110,
        CaptureKey::Delete => 111,
        CaptureKey::Home => 102,
        CaptureKey::End => 107,
        CaptureKey::PageUp => 104,
        CaptureKey::PageDown => 109,
        CaptureKey::ArrowUp => 103,
        CaptureKey::ArrowDown => 108,
        CaptureKey::ArrowLeft => 105,
        CaptureKey::ArrowRight => 106,
    }
}

/// The evdev code of an assignable key.
pub fn capture_key_code(k: CaptureKey) -> (r: u16)
    ensures
        r == capture_code(k),
{
    match k {
        CaptureKey::A => 30,
        CaptureKey::B => 48,
        CaptureKey::C => 46,
        CaptureKey::D => 32,
        CaptureKey::E => 18,
        CaptureKey::F => 33,
        CaptureKey::G => 34,
        CaptureKey::H => 35,
        CaptureKey::I => 23,
        CaptureKey::J => 36,
        CaptureKey::K => 37,
        CaptureKey::L => 38,
        CaptureKey::M => 50,
        CaptureKey::N => 49,
        CaptureKey::O => 24,
        CaptureKey::P => 25,
        CaptureKey::Q => 16,
        CaptureKey::R => 19,
        CaptureKey::S => 31,
        CaptureKey::T => 20,
        CaptureKey::U => 22,
        CaptureKey::V => 47,
        CaptureKey::W => 17,
        CaptureKey::X => 45,
        CaptureKey::Y => 21,
        CaptureKey::Z => 44,
        CaptureKey::Num0 => 11,
        CaptureKey::Num1 => 2,
        CaptureKey::Num2 => 3,
        CaptureKey::Num3 => 4,
        CaptureKey::Num4 => 5,
        CaptureKey::Num5 => 6,
        CaptureKey::Num6 => 7,
        CaptureKey::Num7 => 8,
        CaptureKey::Num8 => 9,
        CaptureKey::Num9 => 10,
        CaptureKey::F1 => 59,
        CaptureKey::F2 => 60,
        CaptureKey::F3 => 61,
        CaptureKey::F4 => 62,
        CaptureKey::F5 => 63,
        CaptureKey::F6 => 64,
        CaptureKey::F7 => 65,
        CaptureKey::F8 => 66,
        CaptureKey::F9 => 67,
        CaptureKey::F10 => 68,
        CaptureKey::F11 => 87,
        CaptureKey::F12 => 88,
        CaptureKey::Escape => 1,
        CaptureKey::Tab => 15,
        CaptureKey::Backspace => 14,
        CaptureKey::Enter => 28,
        CaptureKey::Space => 57,
        CaptureKey::Insert => 110,
        CaptureKey::Delete => 111,
        CaptureKey::Home => 102,
        CaptureKey::End => 107,
        CaptureKey::PageUp => 104,
        CaptureKey::PageDown => 109,
        CaptureKey::ArrowUp => 103,
        CaptureKey::ArrowDown => 108,
        CaptureKey::ArrowLeft => 105,
        CaptureKey::ArrowRight => 106,
    }
}

/// The combo captured from a key press with the given modifiers (the Super key
/// cannot be captured).
pub fn captured_combo(ctrl: bool, alt: bool, shift: bool, key: CaptureKey) -> (r: KeyCombo)
    ensures
        r == (KeyCombo { ctrl, alt, shift, super_key: false, key_code: capture_code(key) }),
{
    KeyCombo { ctrl, alt, shift, super_key: false, key_code: capture_key_code(key) }
}

/// Assigns `combo` to the hotkey of `action`, leaving the others as they were.
pub fn assign_hotkey(config: &mut HotkeyConfig, action: HotkeyAction, combo: KeyCombo)
    ensures
        final(config).record == (if action == HotkeyAction::Record { combo } else { old(config).record }),
        final(config).play == (if action == HotkeyAction::Play { combo } else { old(config).play }),
        final(config).stop == (if action == HotkeyAction::Stop { combo } else { old(config).stop }),
        final(config).lang@ == old(config).lang@,
        final(config).recent_files@ == old(config).recent_files@,
{
    match action {
        HotkeyAction::Record => config.record = combo,
        HotkeyAction::Play => config.play = combo,
        HotkeyAction::Stop => config.stop = combo,
    }
}

/// Stores the UI language in the configuration.
pub fn set_config_lang(config: &mut HotkeyConfig, lang: Lang)
    ensures
        final(config).lang@ == lang_code(lang)@,
        final(config).record == old(config).record,
        final(config).play == old(config).play,
        final(config).stop == old(config).stop,
        final(config).recent_files@ == old(config).recent_files@,
{
    config.lang = String::from_str(lang.code());
}

/// The default hotkeys, keeping the UI language `lang`.
pub fn defaults_keeping_lang(lang: Lang) -> (r: HotkeyConfig)
    ensures
        r.record == default_combo(19),
        r.play == default_combo(25),
        r.stop == default_combo(31),
        r.lang@ == lang_code(lang)@,
        r.recent_files@.len() == 0,
{
    let mut defaults = HotkeyConfig::default();
    set_config_lang(&mut defaults, lang);
    defaults
}

} // verus!
