//! The data model: recorded events and recordings, the versioned macro file
//! record, hotkey combinations and configuration, and the record filter.
use std::collections::HashSet;
use vstd::prelude::*;
use vstd::string::*;
use crate::text::{contains_str, ends_with_str, str_eq, u64_to_decimal, contains_seq, ends_with_seq, decimal};

verus! {

broadcast use vstd::std_specs::hash::group_hash_axioms;

/// One input event of a recording, with its time since the recording started.
#[derive(Debug, Clone, Copy, PartialEq, Eq, Structural)]
pub struct MacroEvent {
    pub timestamp_us: u64,
    pub event_type: u16,
    pub code: u16,
    pub value: i32,
}

/// Whole microseconds from `start_ns` to `event_ns` (both in nanoseconds on the
/// same clock), or 0 when the event lies before the start.
pub open spec fn elapsed_us(event_ns: u128, start_ns: u128) -> u64 {
    if event_ns >= start_ns {
        ((event_ns - start_ns) / 1000) as u64
    } else {
        0
    }
}

impl MacroEvent {
    /// Builds the recorded form of a kernel input event: its type, code and
    /// value, stamped with the time elapsed since the recording started.
    pub fn from_evdev(
        event_type: u16,
        code: u16,
        value: i32,
        event_time_ns: u128,
        start_time_ns: u128,
    ) -> (r: Self)
        ensures
            r.timestamp_us == elapsed_us(event_time_ns, start_time_ns),
            r.event_type == event_type,
            r.code == code,
            r.value == value,
    {
        let timestamp_us: u64 = if event_time_ns >= start_time_ns {
            ((event_time_ns - start_time_ns) / 1000) as u64
        } else {
            0
        };
        MacroEvent { timestamp_us, event_type, code, value }
    }
}

/// The timestamp of the last event, or 0 for no events.
pub open spec fn last_timestamp(events: Seq<MacroEvent>) -> u64 {
    if events.len() == 0 {
        0
    } else {
        events.last().timestamp_us
    }
}

/// The duration of a recording: the timestamp of its last event, or 0 when empty.
pub fn recording_duration(events: &Vec<MacroEvent>) -> (r: u64)
    ensures
        r == last_timestamp(events@),
{
    if events.len() == 0 {
        0
    } else {
        events[events.len() - 1].timestamp_us
    }
}

/// A copy of a list of events.
pub fn copy_events(events: &Vec<MacroEvent>) -> (r: Vec<MacroEvent>)
    ensures
        r@ == events@,
{
    let mut r: Vec<MacroEvent> = Vec::new();
    let mut i: usize = 0;
    while i < events.len()
        invariant
            i <= events.len(),
            r@ == events@.take(i as int),
        decreases events.len() - i,
    {
        r.push(events[i]);
        assert(events@.take(i + 1) =~= events@.take(i as int).push(events@[i as int]));
        i = i + 1;
    }
    assert(events@.take(events.len() as int) =~= events@);
    r
}

#[verifier::external_type_specification]
#[verifier::external_body]
pub struct ExSystemTime(std::time::SystemTime);

/// Calls `SystemTime::now`: the current wall-clock time. Nothing is claimed of
/// the value: it depends on the clock.
#[verifier::external_body]
fn system_time_now() -> std::time::SystemTime {
    std::time::SystemTime::now()
}

/// Calls `SystemTime::duration_since` with `UNIX_EPOCH`: the time elapsed
/// since the epoch, or none for a time before it. Nothing is claimed of the
/// value, since a `SystemTime` is opaque here.
#[verifier::external_body]
fn elapsed_since_epoch(t: &std::time::SystemTime) -> Option<std::time::Duration> {
    match t.duration_since(std::time::UNIX_EPOCH) {
        Ok(d) => Some(d),
        Err(_) => None,
    }
}

/// Calls `Duration::as_secs`: the whole seconds of a duration. Nothing is
/// claimed of the value, since a `Duration` is opaque here.
#[verifier::external_body]
fn duration_whole_secs(d: &std::time::Duration) -> u64 {
    d.as_secs()
}

/// Whole seconds since the Unix epoch by the system clock; 0 for a clock set
/// before the epoch.
fn unix_now_secs() -> u64 {
    let now = system_time_now();
    match elapsed_since_epoch(&now) {
        Some(d) => duration_whole_secs(&d),
        None => 0,
    }
}

/// A recording: a named, timestamped list of events.
#[derive(Debug)]
pub struct MacroRecording {
    pub name: String,
    pub created_at: u64,
    pub duration_us: u64,
    pub events: Vec<MacroEvent>,
}

/// A recording as values: name, creation time, duration and events.
pub type RecordingView = (Seq<char>, u64, u64, Seq<MacroEvent>);

impl View for MacroRecording {
    type V = RecordingView;

    open spec fn view(&self) -> RecordingView {
        (self.name@, self.created_at, self.duration_us, self.events@)
    }
}

impl MacroRecording {
    /// An empty recording named `name`, created now.
    pub fn new(name: String) -> (r: Self)
        ensures
            r.name@ == name@,
            r.duration_us == 0,
            r.events@.len() == 0,
    {
        let created_at = unix_now_secs();
        Self::with_created_at(name, created_at)
    }

    /// An empty recording named `name`, created at `created_at` (Unix seconds).
    pub fn with_created_at(name: String, created_at: u64) -> (r: Self)
        ensures
            r@ == (name@, created_at, 0u64, Seq::<MacroEvent>::empty()),
    {
        MacroRecording { name, created_at, duration_us: 0, events: Vec::with_capacity(10_000) }
    }
}

/// The on-disk record of a recording, versioned (the same record is written
/// as JSON and as bincode).
#[derive(Debug)]
pub struct MacroFile {
    pub version: u32,
    pub name: String,
    pub created_at: u64,
    pub duration_us: u64,
    pub event_count: u32,
    pub events: Vec<MacroEvent>,
}

/// A file record as values: version, name, creation time, duration, event
/// count and events.
pub type FileView = (u32, Seq<char>, u64, u64, u32, Seq<MacroEvent>);

impl View for MacroFile {
    type V = FileView;

    open spec fn view(&self) -> FileView {
        (self.version, self.name@, self.created_at, self.duration_us, self.event_count, self.events@)
    }
}

/// The error text for a file whose version is newer than this program reads.
pub open spec fn version_error(version: u32) -> Seq<char> {
    "Unsupported file version: "@ + decimal(version as nat) + " (max "@ + decimal(1) + ")"@
}

/// The error text for a path that climbs out of its directory.
pub open spec fn path_error() -> Seq<char> {
    "Invalid file path (must not contain ..)"@
}

/// The file record written for a recording: current version, the recording's
/// fields, and its event count as a 32-bit counter.
pub open spec fn file_record(r: RecordingView) -> FileView {
    (1u32, r.0, r.1, r.2, r.3.len() as u32, r.3)
}

/// What reading a file record gives: its recording, or the version error for a
/// version newer than the current one. The event counter is not consulted.
pub open spec fn file_contents(f: FileView) -> Result<RecordingView, Seq<char>> {
    if f.0 > 1 {
        Err(version_error(f.0))
    } else {
        Ok((f.1, f.2, f.3, f.5))
    }
}

impl MacroFile {
    pub const CURRENT_VERSION: u32 = 1;

    /// The file record of a recording, at the current version.
    pub fn from_recording(rec: &MacroRecording) -> (f: MacroFile)
        ensures
            f@ == file_record(rec@),
            f.version == 1,
            f.name@ == rec.name@,
            f.created_at == rec.created_at,
            f.duration_us == rec.duration_us,
            f.events@ == rec.events@,
    {
        MacroFile {
            version: Self::CURRENT_VERSION,
            name: rec.name.clone(),
            created_at: rec.created_at,
            duration_us: rec.duration_us,
            event_count: rec.events.len() as u32,
            events: copy_events(&rec.events),
        }
    }

    /// The file record of an old-style binary file that held the bare event
    /// list: version 1, named "imported", created at `created_at`, lasting until
    /// its last event.
    pub fn from_legacy_events(events: Vec<MacroEvent>, created_at: u64) -> (f: MacroFile)
        ensures
            f@ == (1u32, "imported"@, created_at, last_timestamp(events@), events@.len() as u32, events@),
    {
        let duration_us = recording_duration(&events);
        let event_count = events.len() as u32;
        MacroFile {
            version: 1,
            name: String::from_str("imported"),
            created_at,
            duration_us,
            event_count,
            events,
        }
    }

    /// The recording a file record holds; refused when the file's version is
    /// newer than the current one.
    pub fn into_recording(self) -> (r: Result<MacroRecording, String>)
        ensures
            match r {
                Ok(rec) => file_contents(self@) == Ok::<RecordingView, Seq<char>>(rec@),
                Err(e) => file_contents(self@) == Err::<RecordingView, Seq<char>>(e@),
            },
            r is Ok <==> self.version <= 1,
            r matches Ok(rec) ==> {
                &&& rec.name@ == self.name@
                &&& rec.created_at == self.created_at
                &&& rec.duration_us == self.duration_us
                &&& rec.events@ == self.events@
            },
    {
        if self.version > Self::CURRENT_VERSION {
            let mut e = String::from_str("Unsupported file version: ");
            let v = u64_to_decimal(self.version as u64);
            e.append(v.as_str());
            e.append(" (max ");
            let m = u64_to_decimal(Self::CURRENT_VERSION as u64);
            e.append(m.as_str());
            e.append(")");
            return Err(e);
        }
        Ok(MacroRecording {
            name: self.name,
            created_at: self.created_at,
            duration_us: self.duration_us,
            events: self.events,
        })
    }
}

/// Proof that a recording written to its file record and read back is the
/// same recording.
pub proof fn lemma_file_record_roundtrip(r: RecordingView)
    ensures
        file_contents(file_record(r)) == Ok::<RecordingView, Seq<char>>(r),
{
}

/// Proof that a file record keeps each field of its recording in its own
/// place, and that reading a record of a supported version gives back its name,
/// creation time, duration and events unchanged: the creation time comes from
/// the record's creation time and the duration from its duration.
pub proof fn lemma_file_fields_in_place(r: RecordingView, f: FileView)
    ensures
        file_record(r).0 == 1,
        file_record(r).1 == r.0,
        file_record(r).2 == r.1,
        file_record(r).3 == r.2,
        file_record(r).5 == r.3,
        f.0 <= 1 ==> file_contents(f) is Ok,
        f.0 > 1 ==> file_contents(f) is Err,
        file_contents(f) matches Ok(rec) ==> rec.0 == f.1 && rec.1 == f.2 && rec.2 == f.3 && rec.3 == f.5,
{
}

/// The two encodings of a macro file.
#[derive(Debug, Clone, Copy, PartialEq, Eq, Structural)]
pub enum MacroFormat {
    /// Readable JSON, chosen by a `.json` file name.
    Json,
    /// Compact bincode, chosen by any other file name (`.tts`).
    Binary,
}

/// Refuses a macro file path that contains `..` anywhere.
pub fn check_macro_path(path: &str) -> (r: Result<(), String>)
    ensures
        r is Err <==> contains_seq(path@, ".."@),
        r matches Err(e) ==> e@ == path_error(),
{
    if contains_str(path, "..") {
        Err(String::from_str("Invalid file path (must not contain ..)"))
    } else {
        Ok(())
    }
}

/// The encoding chosen by the file name: JSON for `.json`, bincode otherwise.
pub fn macro_format_for(path: &str) -> (r: MacroFormat)
    ensures
        r == (if ends_with_seq(path@, ".json"@) { MacroFormat::Json } else { MacroFormat::Binary }),
{
    if ends_with_str(path, ".json") {
        MacroFormat::Json
    } else {
        MacroFormat::Binary
    }
}


/// What the application is doing.
#[derive(Debug, Clone, Copy, PartialEq, Eq, Structural)]
pub enum AppState {
    Idle,
    Recording,
    Playing,
}

/// The action a hotkey triggers.
#[derive(Debug, Clone, Copy, PartialEq, Eq, Structural)]
pub enum HotkeyAction {
    Record,
    Play,
    Stop,
}

/// A hotkey: the modifiers it needs held and its main key (an evdev key code).
#[derive(Debug, Clone)]
pub struct KeyCombo {
    pub ctrl: bool,
    pub alt: bool,
    pub shift: bool,
    pub super_key: bool,
    pub key_code: u16,
}

/// Display names of the evdev key codes that have one, in lookup order.
pub const KEY_NAMES: [(u16, &'static str); 53] = [
    (19, "R"),
    (25, "P"),
    (31, "S"),
    (28, "Enter"),
    (57, "Space"),
    (14, "Backspace"),
    (15, "Tab"),
    (1, "Esc"),
    (30, "A"),
    (48, "B"),
    (46, "C"),
    (32, "D"),
    (18, "E"),
    (33, "F"),
    (34, "G"),
    (35, "H"),
    (23, "I"),
    (36, "J"),
    (37, "K"),
    (38, "L"),
    (50, "M"),
    (49, "N"),
    (24, "O"),
    (16, "Q"),
    (20, "T"),
    (22, "U"),
    (47, "V"),
    (17, "W"),
    (45, "X"),
    (21, "Y"),
    (44, "Z"),
    (59, "F1"),
    (60, "F2"),
    (61, "F3"),
    (62, "F4"),
    (63, "F5"),
    (64, "F6"),
    (65, "F7"),
    (66, "F8"),
    (67, "F9"),
    (68, "F10"),
    (87, "F11"),
    (88, "F12"),
    (103, "Up"),
    (108, "Down"),
    (105, "Left"),
    (106, "Right"),
    (102, "Home"),
    (107, "End"),
    (104, "PageUp"),
    (109, "PageDown"),
    (110, "Insert"),
    (111, "Delete"),
];

/// The position of the first entry of `KEY_NAMES`, at `i` or later, for `code`;
/// 53 when there is none.
pub open spec fn key_name_position_from(code: u16, i: nat) -> nat
    decreases 53 - i,
{
    if i >= 53 {
        53
    } else if KEY_NAMES@[i as int].0 == code {
        i
    } else {
        key_name_position_from(code, i + 1)
    }
}

/// The display name of a key code: its entry in `KEY_NAMES`, else `Key<code>`.
pub open spec fn key_label(code: u16) -> Seq<char> {
    let i = key_name_position_from(code, 0);
    if i < 53 {
        KEY_NAMES@[i as int].1@
    } else {
        "Key"@ + decimal(code as nat)
    }
}

/// The modifier part of a combo's display name, in the order Ctrl, Alt, Shift, Super.
pub open spec fn modifier_prefix(c: KeyCombo) -> Seq<char> {
    (if c.ctrl { "Ctrl+"@ } else { Seq::<char>::empty() })
        + (if c.alt { "Alt+"@ } else { Seq::<char>::empty() })
        + (if c.shift { "Shift+"@ } else { Seq::<char>::empty() })
        + (if c.super_key { "Super+"@ } else { Seq::<char>::empty() })
}

/// The display name of a combo, such as `Ctrl+Alt+Shift+R` or `F8`.
pub open spec fn combo_label(c: KeyCombo) -> Seq<char> {
    modifier_prefix(c) + key_label(c.key_code)
}

/// Either Ctrl key (left 29, right 97) is held.
pub open spec fn ctrl_held(p: Set<u16>) -> bool {
    p.contains(29) || p.contains(97)
}

/// Either Alt key (left 56, right 100) is held.
pub open spec fn alt_held(p: Set<u16>) -> bool {
    p.contains(56) || p.contains(100)
}

/// Either Shift key (left 42, right 54) is held.
pub open spec fn shift_held(p: Set<u16>) -> bool {
    p.contains(42) || p.contains(54)
}

/// Either Super key (left 125, right 126) is held.
pub open spec fn super_held(p: Set<u16>) -> bool {
    p.contains(125) || p.contains(126)
}

/// A combo fires on exactly its modifiers (no more, no fewer) plus its key.
pub open spec fn combo_matches(c: KeyCombo, p: Set<u16>) -> bool {
    &&& c.ctrl == ctrl_held(p)
    &&& c.alt == alt_held(p)
    &&& c.shift == shift_held(p)
    &&& c.super_key == super_held(p)
    &&& p.contains(c.key_code)
}

/// Proof that hotkey matching is strict: a combo fires only when its key is
/// held, every modifier it asks for is held (on either side), and no modifier
/// it does not ask for is held; and a combo whose key and modifiers are held
/// exactly so does fire.
pub proof fn lemma_combo_match_is_strict(c: KeyCombo, p: Set<u16>)
    ensures
        combo_matches(c, p) ==> p.contains(c.key_code),
        combo_matches(c, p) ==> (c.ctrl <==> (p.contains(29u16) || p.contains(97u16))),
        combo_matches(c, p) ==> (c.alt <==> (p.contains(56u16) || p.contains(100u16))),
        combo_matches(c, p) ==> (c.shift <==> (p.contains(42u16) || p.contains(54u16))),
        combo_matches(c, p) ==> (c.super_key <==> (p.contains(125u16) || p.contains(126u16))),
        p.contains(c.key_code) && (c.ctrl <==> (p.contains(29u16) || p.contains(97u16))) && (c.alt <==> (
        p.contains(56u16) || p.contains(100u16))) && (c.shift <==> (p.contains(42u16) || p.contains(54u16)))
            && (c.super_key <==> (p.contains(125u16) || p.contains(126u16))) ==> combo_matches(c, p),
{
}

/// The combo Ctrl+Alt+Shift plus `key_code`.
pub open spec fn default_combo(key_code: u16) -> KeyCombo {
    KeyCombo { ctrl: true, alt: true, shift: true, super_key: false, key_code }
}

fn key_name_of(code: u16) -> (r: Option<&'static str>)
    ensures
        match r {
            Some(s) => key_name_position_from(code, 0) < 53 && s@ == key_label(code),
            None => key_name_position_from(code, 0) == 53,
        },
{
    let mut i: usize = 0;
    while i < 53
        invariant
            i <= 53,
            key_name_position_from(code, 0) == key_name_position_from(code, i as nat),
        decreases 53 - i,
    {
        let (c, name) = KEY_NAMES[i];
        if c == code {
            return Some(name);
        }
        i = i + 1;
    }
    None
}

impl KeyCombo {
    /// Ctrl+Alt+Shift held plus `key_code`.
    pub fn new(key_code: u16) -> (r: Self)
        ensures
            r == default_combo(key_code),
    {
        KeyCombo { ctrl: true, alt: true, shift: true, super_key: false, key_code }
    }

    /// The display name of the combo, such as `Ctrl+Alt+Shift+R`, `F8` or `Key2`.
    pub fn to_string(&self) -> (r: String)
        ensures
            r@ == combo_label(*self),
    {
        let mut result = String::new();
        if self.ctrl {
            result.append("Ctrl+");
        }
        if self.alt {
            result.append("Alt+");
        }
        if self.shift {
            result.append("Shift+");
        }
        if self.super_key {
            result.append("Super+");
        }
        assert(result@ =~= modifier_prefix(*self));
        match key_name_of(self.key_code) {
            Some(name) => {
                result.append(name);
            },
            None => {
                result.append("Key");
                let digits = u64_to_decimal(self.key_code as u64);
                result.append(digits.as_str());
            },
        }
        assert(result@ =~= combo_label(*self));
        result
    }

    /// Does the set of held keys fire this combo? Strict: the held modifiers
    /// must be exactly the combo's, and its key must be held.
    pub fn matches(&self, pressed: &HashSet<u16>) -> (r: bool)
        ensures
            r == combo_matches(*self, pressed@),
    {
        let ctrl_pressed = pressed.contains(&29) || pressed.contains(&97);
        let alt_pressed = pressed.contains(&56) || pressed.contains(&100);
        let shift_pressed = pressed.contains(&42) || pressed.contains(&54);
        let super_pressed = pressed.contains(&125) || pressed.contains(&126);

        let ctrl_match = self.ctrl == ctrl_pressed;
        let alt_match = self.alt == alt_pressed;
        let shift_match = self.shift == shift_pressed;
        let super_match = self.super_key == super_pressed;
        let key_match = pressed.contains(&self.key_code);

        ctrl_match && alt_match && shift_match && super_match && key_match
    }
}

/// The three hotkeys, the UI language and the recently used macro files.
#[derive(Debug, Clone)]
pub struct HotkeyConfig {
    pub record: KeyCombo,
    pub play: KeyCombo,
    pub stop: KeyCombo,
    /// UI language code ("en", "tr", ...).
    pub lang: String,
    /// Recently used macro files, newest first, at most `RECENT_MAX`.
    pub recent_files: Vec<String>,
}

/// The texts of a list of strings.
pub open spec fn string_views(v: Seq<String>) -> Seq<Seq<char>> {
    v.map_values(|s: String| s@)
}

/// `l` without the entries equal to `p`, the others kept in order.
pub open spec fn without(l: Seq<Seq<char>>, p: Seq<char>) -> Seq<Seq<char>>
    decreases l.len(),
{
    if l.len() == 0 {
        l
    } else {
        let rest = without(l.drop_last(), p);
        if l.last() == p {
            rest
        } else {
            rest.push(l.last())
        }
    }
}

/// The recent-files list after using `p`: `p` first, then the other entries in
/// their order, cut to eight entries.
pub open spec fn recent_after(l: Seq<Seq<char>>, p: Seq<char>) -> Seq<Seq<char>> {
    let full = seq![p] + without(l, p);
    if full.len() <= 8 {
        full
    } else {
        full.subrange(0, 8)
    }
}

impl HotkeyConfig {
    pub const RECENT_MAX: usize = 8;

    /// Newest-first insert with dedupe and cap.
    pub fn push_recent(list: &mut Vec<String>, path: &str)
        ensures
            string_views(final(list)@) == recent_after(string_views(old(list)@), path@),
    {
        let mut kept: Vec<String> = Vec::new();
        let mut i: usize = 0;
        while i < list.len()
            invariant
                i <= list.len(),
                list@ == old(list)@,
                string_views(kept@) == without(string_views(list@).take(i as int), path@),
            decreases list.len() - i,
        {
            let ghost before = string_views(kept@);
            let ghost all = string_views(list@);
            assert(all.take(i + 1).drop_last() =~= all.take(i as int));
            assert(all.take(i + 1).last() == list@[i as int]@);
            if !str_eq(list[i].as_str(), path) {
                kept.push(list[i].clone());
                assert(string_views(kept@) =~= before.push(list@[i as int]@));
            }
            i = i + 1;
        }
        assert(string_views(list@).take(list.len() as int) =~= string_views(list@));
        let ghost filtered = string_views(kept@);
        kept.insert(0, String::from_str(path));
        assert(string_views(kept@) =~= seq![path@] + filtered);
        kept.truncate(Self::RECENT_MAX);
        assert(string_views(kept@) =~= recent_after(string_views(old(list)@), path@));
        *list = kept;
    }
}

/// The default configuration's language code.
pub fn default_lang_code() -> (r: String)
    ensures
        r@ == "en"@,
{
    String::from_str("en")
}

impl Default for HotkeyConfig {
    /// Ctrl+Alt+Shift+R records, +P plays, +S stops; English; no recent files.
    fn default() -> (r: Self)
        ensures
            r.record == default_combo(19),
            r.play == default_combo(25),
            r.stop == default_combo(31),
            r.lang@ == "en"@,
            r.recent_files@.len() == 0,
    {
        HotkeyConfig {
            record: KeyCombo::new(19),
            play: KeyCombo::new(25),
            stop: KeyCombo::new(31),
            lang: default_lang_code(),
            recent_files: Vec::new(),
        }
    }
}

/// Which device classes to record.
#[derive(Debug, Clone, Copy, PartialEq, Eq, Structural)]
pub struct RecordFilter {
    pub keyboard: bool,
    pub mouse: bool,
}

impl Default for RecordFilter {
    /// Both classes are recorded.
    fn default() -> (r: Self)
        ensures
            r == (RecordFilter { keyboard: true, mouse: true }),
    {
        RecordFilter { keyboard: true, mouse: true }
    }
}

/// The evdev event type of synchronisation markers.
pub const EV_SYN: u16 = 0;

/// The evdev event type of keys and buttons.
pub const EV_KEY: u16 = 1;

/// The evdev event type of relative axes (mouse motion, wheels).
pub const EV_REL: u16 = 2;

/// The evdev event type of absolute axes (tablets, touch).
pub const EV_ABS: u16 = 3;

/// Whether an event type passes a record filter: keys need the keyboard class,
/// relative and absolute axes need the mouse class, other types always pass.
pub open spec fn filter_allows(filter: RecordFilter, event_type: u16) -> bool {
    if event_type == EV_KEY {
        filter.keyboard
    } else if event_type == EV_REL || event_type == EV_ABS {
        filter.mouse
    } else {
        true
    }
}

/// Does this event type pass the record filter? Unknown types always pass.
pub fn record_filter_allows(filter: &RecordFilter, event_type: u16) -> (r: bool)
    ensures
        r == filter_allows(*filter, event_type),
{
    if event_type == EV_KEY {
        filter.keyboard
    } else if event_type == EV_REL || event_type == EV_ABS {
        filter.mouse
    } else {
        true
    }
}

/// The action of the first of record, play and stop whose combo fires.
pub open spec fn triggered_action(config: HotkeyConfig, p: Set<u16>) -> Option<HotkeyAction> {
    if combo_matches(config.record, p) {
        Some(HotkeyAction::Record)
    } else if combo_matches(config.play, p) {
        Some(HotkeyAction::Play)
    } else if combo_matches(config.stop, p) {
        Some(HotkeyAction::Stop)
    } else {
        None
    }
}

/// Which hotkey action (if any) does the currently pressed set trigger?
pub fn hotkey_action_for(config: &HotkeyConfig, pressed: &HashSet<u16>) -> (r: Option<HotkeyAction>)
    ensures
        r == triggered_action(*config, pressed@),
{
    if config.record.matches(pressed) {
        Some(HotkeyAction::Record)
    } else if config.play.matches(pressed) {
        Some(HotkeyAction::Play)
    } else if config.stop.matches(pressed) {
        Some(HotkeyAction::Stop)
    } else {
        None
    }
}

/// The evdev codes of the modifier keys a combo requires, left and right of
/// each, in the order Ctrl, Alt, Shift, Super.
pub open spec fn chord_codes(c: KeyCombo) -> Seq<u16> {
    (if c.ctrl { seq![29u16, 97u16] } else { Seq::<u16>::empty() })
        + (if c.alt { seq![56u16, 100u16] } else { Seq::<u16>::empty() })
        + (if c.shift { seq![42u16, 54u16] } else { Seq::<u16>::empty() })
        + (if c.super_key { seq![125u16, 126u16] } else { Seq::<u16>::empty() })
}

/// Linux evdev codes of the modifier keys a combo requires.
pub fn chord_modifier_codes(combo: &KeyCombo) -> (r: Vec<u16>)
    ensures
        r@ == chord_codes(*combo),
{
    let mut codes: Vec<u16> = Vec::with_capacity(8);
    if combo.ctrl {
        codes.push(29);
        codes.push(97);
    }
    if combo.alt {
        codes.push(56);
        codes.push(100);
    }
    if combo.shift {
        codes.push(42);
        codes.push(54);
    }
    if combo.super_key {
        codes.push(125);
        codes.push(126);
    }
    assert(codes@ =~= chord_codes(*combo));
    codes
}

/// The modifier key codes: left and right Ctrl, Alt, Shift and Super.
pub open spec fn is_modifier_code(x: u16) -> bool {
    x == 29 || x == 97 || x == 56 || x == 100 || x == 42 || x == 54 || x == 125 || x == 126
}

/// Proof that when a combo fires, every modifier key held at that moment is
/// among the combo's chord codes, so suppressing the chord codes hides all of them.
pub proof fn lemma_fired_chord_covers_held_modifiers(c: KeyCombo, p: Set<u16>, x: u16)
    requires
        combo_matches(c, p),
        p.contains(x),
        is_modifier_code(x),
    ensures
        chord_codes(c).contains(x),
{
    let s = chord_codes(c);
    let a = if c.ctrl { seq![29u16, 97u16] } else { Seq::<u16>::empty() };
    let b = if c.alt { seq![56u16, 100u16] } else { Seq::<u16>::empty() };
    let d = if c.shift { seq![42u16, 54u16] } else { Seq::<u16>::empty() };
    let e = if c.super_key { seq![125u16, 126u16] } else { Seq::<u16>::empty() };
    assert(s == a + b + d + e);
    if x == 29 || x == 97 {
        assert(s[if x == 29 { 0 } else { 1 }] == x);
    } else if x == 56 || x == 100 {
        assert(s[a.len() + if x == 56 { 0int } else { 1 }] == x);
    } else if x == 42 || x == 54 {
        assert(s[a.len() + b.len() + if x == 42 { 0int } else { 1 }] == x);
    } else {
        assert(s[a.len() + b.len() + d.len() + if x == 125 { 0int } else { 1 }] == x);
    }
}

proof fn lemma_without(l: Seq<Seq<char>>, p: Seq<char>)
    ensures
        without(l, p).len() <= l.len(),
        !without(l, p).contains(p),
        forall|i: int| 0 <= i < without(l, p).len() ==> l.contains(#[trigger] without(l, p)[i]),
        l.no_duplicates() ==> without(l, p).no_duplicates(),
    decreases l.len(),
{
    if l.len() > 0 {
        let init = l.drop_last();
        lemma_without(init, p);
        let rest = without(init, p);
        assert forall|i: int| 0 <= i < rest.len() implies l.contains(#[trigger] rest[i]) by {
            let j = choose|j: int| 0 <= j < init.len() && init[j] == rest[i];
            assert(l[j] == rest[i]);
        }
        assert(l[l.len() - 1] == l.last());
        if l.last() != p {
            let w = rest.push(l.last());
            assert forall|i: int| 0 <= i < w.len() implies l.contains(#[trigger] w[i]) by {
                if i < rest.len() {
                    assert(w[i] == rest[i]);
                }
            }
            assert(!w.contains(p)) by {
                if w.contains(p) {
                    let k = choose|k: int| 0 <= k < w.len() && w[k] == p;
                    if k < rest.len() {
                        assert(rest[k] == p);
                    }
                }
            }
            if l.no_duplicates() {
                assert(!init.contains(l.last())) by {
                    if init.contains(l.last()) {
                        let k = choose|k: int| 0 <= k < init.len() && init[k] == l.last();
                        assert(l[k] == l[l.len() - 1]);
                    }
                }
                assert(init.no_duplicates()) by {
                    assert forall|i: int, j: int| 0 <= i < init.len() && 0 <= j < init.len() && i != j
                        implies init[i] != init[j] by {
                        assert(init[i] == l[i] && init[j] == l[j]);
                    }
                }
                assert forall|i: int, j: int| 0 <= i < w.len() && 0 <= j < w.len() && i != j
                    implies w[i] != w[j] by {
                    if i < rest.len() && j < rest.len() {
                        assert(w[i] == rest[i] && w[j] == rest[j]);
                    } else if i < rest.len() {
                        assert(w[i] == rest[i]);
                        if w[i] == w[j] {
                            let k = choose|k: int| 0 <= k < init.len() && init[k] == rest[i];
                            assert(init.contains(l.last()));
                        }
                    } else if j < rest.len() {
                        assert(w[j] == rest[j]);
                        if w[i] == w[j] {
                            let k = choose|k: int| 0 <= k < init.len() && init[k] == rest[j];
                            assert(init.contains(l.last()));
                        }
                    }
                }
            }
        } else {
            if l.no_duplicates() {
                assert forall|i: int, j: int| 0 <= i < init.len() && 0 <= j < init.len() && i != j
                    implies init[i] != init[j] by {
                    assert(init[i] == l[i] && init[j] == l[j]);
                }
            }
        }
    }
}

/// Proof of the recent-files list laws: the used path comes first and appears
/// once, the list holds at most `RECENT_MAX` entries, every other entry was
/// already in the list, and a list without duplicates stays without duplicates.
pub proof fn lemma_recent_list(l: Seq<Seq<char>>, p: Seq<char>)
    ensures
        recent_after(l, p).len() >= 1,
        recent_after(l, p)[0] == p,
        recent_after(l, p).len() <= 8,
        forall|i: int| 1 <= i < recent_after(l, p).len() ==> #[trigger] recent_after(l, p)[i] != p,
        forall|i: int|
            1 <= i < recent_after(l, p).len() ==> l.contains(#[trigger] recent_after(l, p)[i]),
        l.no_duplicates() ==> recent_after(l, p).no_duplicates(),
{
    lemma_without(l, p);
    let w = without(l, p);
    let full = seq![p] + w;
    let r = recent_after(l, p);
    assert forall|i: int| 1 <= i < r.len() implies #[trigger] r[i] != p && l.contains(r[i]) by {
        assert(r[i] == full[i]);
        assert(full[i] == w[i - 1]);
    }
    if l.no_duplicates() {
        assert forall|i: int, j: int| 0 <= i < r.len() && 0 <= j < r.len() && i != j
            implies r[i] != r[j] by {
            assert(r[i] == full[i] && r[j] == full[j]);
            if i > 0 && j > 0 {
                assert(full[i] == w[i - 1] && full[j] == w[j - 1]);
            } else if i == 0 {
                assert(full[j] == w[j - 1]);
            } else {
                assert(full[i] == w[i - 1]);
            }
        }
    }
}

} // verus!
