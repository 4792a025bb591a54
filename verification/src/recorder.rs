//! Decision logic of the recorder: which input devices it listens to, which
//! events it keeps (hotkey presses are left out), and what a stopped
//! recording holds.
use vstd::prelude::*;
use vstd::string::*;
use std::collections::HashSet;
use crate::control::{note_key_event, pressed_after};
use crate::models::{
    HotkeyAction, HotkeyConfig, KeyCombo, MacroEvent, MacroRecording, RecordFilter, EV_KEY, EV_SYN,
    chord_codes, chord_modifier_codes, copy_events, elapsed_us, filter_allows, hotkey_action_for,
    last_timestamp, recording_duration, triggered_action,
};
use crate::text::{contains_seq, contains_str, lowercase, starts_with_seq, starts_with_str, to_lowercase};

verus! {

/// A device whose name (lower-cased) mentions power, video or lid is a
/// switch or button panel, not an input to record.
pub open spec fn is_switch_name(lower: Seq<char>) -> bool {
    contains_seq(lower, "power"@) || contains_seq(lower, "video"@) || contains_seq(lower, "lid"@)
}

/// Does a lower-cased device name mention power, video or lid?
pub fn is_switch_lowered(lower: &str) -> (r: bool)
    ensures
        r == is_switch_name(lower@),
{
    contains_str(lower, "power") || contains_str(lower, "video") || contains_str(lower, "lid")
}

/// The name a device reports, or the empty name when it reports none.
pub open spec fn name_or_empty(name: Option<&str>) -> Seq<char> {
    match name {
        Some(n) => n@,
        None => ""@,
    }
}

/// An input device is recorded when its node is an `event*` node, it sends
/// keys, relative or absolute axes, and it is not a switch.
pub open spec fn is_recordable_device(
    file_name: Seq<char>,
    name: Seq<char>,
    has_key: bool,
    has_rel: bool,
    has_abs: bool,
) -> bool {
    &&& starts_with_seq(file_name, "event"@)
    &&& has_key || has_rel || has_abs
    &&& !is_switch_name(lowercase(name))
}

/// Should the device node `file_name`, reporting `device_name` and the given
/// event classes, be recorded?
pub fn recordable_device(
    file_name: &str,
    device_name: Option<&str>,
    has_key: bool,
    has_rel: bool,
    has_abs: bool,
) -> (r: bool)
    ensures
        r == is_recordable_device(file_name@, name_or_empty(device_name), has_key, has_rel, has_abs),
{
    if !starts_with_str(file_name, "event") {
        return false;
    }
    let name: &str = match device_name {
        Some(n) => n,
        None => "",
    };
    let lower = to_lowercase(name);
    (has_key || has_rel || has_abs) && !is_switch_lowered(lower.as_str())
}

/// The error text for saving a recording that holds no events.
pub open spec fn nothing_to_save() -> Seq<char> {
    "No events to save!"@
}

/// Refuses to save a recording without events.
pub fn save_check(rec: &MacroRecording) -> (r: Result<(), String>)
    ensures
        r is Err <==> rec.events@.len() == 0,
        r matches Err(e) ==> e@ == nothing_to_save(),
{
    if rec.events.len() == 0 {
        Err(String::from_str("No events to save!"))
    } else {
        Ok(())
    }
}

/// The recorder's working state.
pub struct RecordSession {
    /// Events are being captured.
    pub active: bool,
    /// When the capture started, in nanoseconds since the Unix epoch.
    pub start_ns: u128,
    /// The events captured since the start.
    pub buffer: Vec<MacroEvent>,
    /// The device classes to capture.
    pub filter: RecordFilter,
    /// The keys held down now, as the key events seen so far tell (recording or not).
    pub held: HashSet<u16>,
    /// Keys of a fired hotkey: their events are dropped until they are released.
    pub suppressed: HashSet<u16>,
}

/// Whether a captured event is kept: the recorder is active, the event is not
/// a synchronisation marker, and its class passes the filter.
pub open spec fn keeps_event(active: bool, filter: RecordFilter, event_type: u16) -> bool {
    active && event_type != EV_SYN && filter_allows(filter, event_type)
}

/// The held keys after an event: key events update them, others do not.
pub open spec fn held_after_event(p: Set<u16>, event_type: u16, code: u16, value: i32) -> Set<u16> {
    if event_type == EV_KEY {
        pressed_after(p, code, value)
    } else {
        p
    }
}

/// The combo of a hotkey action.
pub open spec fn hotkey_combo(config: HotkeyConfig, a: HotkeyAction) -> KeyCombo {
    match a {
        HotkeyAction::Record => config.record,
        HotkeyAction::Play => config.play,
        HotkeyAction::Stop => config.stop,
    }
}

/// The hotkey a key press fires, given the keys held after it: the combo of
/// the first of record, play and stop that matches.
pub open spec fn fired_combo(config: HotkeyConfig, held: Set<u16>, event_type: u16, value: i32) -> Option<KeyCombo> {
    if event_type == EV_KEY && value == 1 {
        match triggered_action(config, held) {
            Some(a) => Some(hotkey_combo(config, a)),
            None => None,
        }
    } else {
        None
    }
}

/// The keys of a fired combo that are held: its main key and its chord's
/// modifier keys (left or right) that are down.
pub open spec fn chord_keys(c: KeyCombo, held: Set<u16>) -> Set<u16> {
    Set::new(|x: u16| (x == c.key_code || chord_codes(c).contains(x)) && held.contains(x))
}

/// A recording without the current holds of the keys in `codes`, working from
/// the end: a key event of such a key, other than a release, is dropped unless
/// a release of the same key comes after it (`later` holds the keys released
/// after the part in view). A key's current hold is what follows its last
/// release: presses and autorepeats alike.
pub open spec fn strip_from_end(buf: Seq<MacroEvent>, codes: Set<u16>, later: Set<u16>) -> Seq<MacroEvent>
    decreases buf.len(),
{
    if buf.len() == 0 {
        buf
    } else {
        let e = buf.last();
        let key = e.event_type == EV_KEY;
        let drop = key && codes.contains(e.code) && e.value != 0 && !later.contains(e.code);
        let later2 = if key && e.value == 0 { later.insert(e.code) } else { later };
        let rest = strip_from_end(buf.drop_last(), codes, later2);
        if drop {
            rest
        } else {
            rest.push(e)
        }
    }
}

/// A recording without the events of the current holds of the keys in
/// `codes`: each such key's presses and autorepeats after its last release
/// (every one of them when it was held since before the recording started).
pub open spec fn strip_current_holds(buf: Seq<MacroEvent>, codes: Set<u16>) -> Seq<MacroEvent> {
    strip_from_end(buf, codes, Set::empty())
}

/// An event that stripping never touches: not a key event of a key in `codes`.
pub open spec fn untouched_by(codes: Set<u16>) -> spec_fn(MacroEvent) -> bool {
    |e: MacroEvent| !(e.event_type == EV_KEY && codes.contains(e.code))
}

/// Proof that stripping removes only key events of the given keys: every other
/// event stays, in order.
pub proof fn lemma_strip_keeps_others(buf: Seq<MacroEvent>, codes: Set<u16>, later: Set<u16>)
    ensures
        strip_from_end(buf, codes, later).filter(untouched_by(codes)) == buf.filter(untouched_by(codes)),
    decreases buf.len(),
{
    if buf.len() > 0 {
        let e = buf.last();
        let key = e.event_type == EV_KEY;
        let later2 = if key && e.value == 0 { later.insert(e.code) } else { later };
        let rest = strip_from_end(buf.drop_last(), codes, later2);
        lemma_strip_keeps_others(buf.drop_last(), codes, later2);
        rest.lemma_filter_push(e, untouched_by(codes));
        buf.drop_last().lemma_filter_push(e, untouched_by(codes));
        assert(buf.drop_last().push(e) =~= buf);
    }
}

/// A press of `c` in `s` (at `i`) is followed in `s` by a release of `c`.
pub open spec fn released_later(s: Seq<MacroEvent>, i: int, c: u16) -> bool {
    exists|j: int| i < j < s.len() && s[j].event_type == EV_KEY && s[j].code == c && s[j].value == 0
}

/// Proof that stripping leaves no key of `codes` held: every press of such a
/// key that stays in the recording is followed in it by a release of that
/// key, unless a release of it comes after the part in view (`later`).
pub proof fn lemma_strip_leaves_no_open_press(buf: Seq<MacroEvent>, codes: Set<u16>, later: Set<u16>)
    ensures
        forall|i: int| #![trigger strip_from_end(buf, codes, later)[i]]
            0 <= i < strip_from_end(buf, codes, later).len()
            && strip_from_end(buf, codes, later)[i].event_type == EV_KEY
            && strip_from_end(buf, codes, later)[i].value == 1
            && codes.contains(strip_from_end(buf, codes, later)[i].code)
            ==> released_later(strip_from_end(buf, codes, later), i, strip_from_end(buf, codes, later)[i].code)
                || later.contains(strip_from_end(buf, codes, later)[i].code),
    decreases buf.len(),
{
    if buf.len() > 0 {
        let e = buf.last();
        let key = e.event_type == EV_KEY;
        let drop = key && codes.contains(e.code) && e.value != 0 && !later.contains(e.code);
        let later2 = if key && e.value == 0 { later.insert(e.code) } else { later };
        let rest = strip_from_end(buf.drop_last(), codes, later2);
        let r = strip_from_end(buf, codes, later);
        lemma_strip_leaves_no_open_press(buf.drop_last(), codes, later2);
        assert(r == (if drop { rest } else { rest.push(e) }));
        assert forall|i: int| #![trigger r[i]]
            0 <= i < r.len() && r[i].event_type == EV_KEY && r[i].value == 1 && codes.contains(r[i].code)
            implies released_later(r, i, r[i].code) || later.contains(r[i].code) by {
            let c = r[i].code;
            if i < rest.len() {
                assert(r[i] == rest[i]);
                if released_later(rest, i, c) {
                    let j = choose|j: int| i < j < rest.len() && rest[j].event_type == EV_KEY && rest[j].code == c
                        && rest[j].value == 0;
                    assert(r[j] == rest[j]);
                } else if !later.contains(c) {
                    assert(later2.contains(c));
                    assert(key && e.value == 0 && e.code == c);
                    assert(!drop);
                    assert(r[rest.len() as int] == e);
                }
            } else {
                assert(!drop && r[i] == e);
            }
        }
    }
}

/// Proof that stripping the current holds of `codes` from a recording leaves
/// no key of `codes` held at its end: each press of such a key that stays is
/// followed by a release of it.
pub proof fn lemma_stripped_keys_end_released(buf: Seq<MacroEvent>, codes: Set<u16>)
    ensures
        forall|i: int| #![trigger strip_current_holds(buf, codes)[i]]
            0 <= i < strip_current_holds(buf, codes).len()
            && strip_current_holds(buf, codes)[i].event_type == EV_KEY
            && strip_current_holds(buf, codes)[i].value == 1
            && codes.contains(strip_current_holds(buf, codes)[i].code)
            ==> released_later(strip_current_holds(buf, codes), i, strip_current_holds(buf, codes)[i].code),
{
    lemma_strip_leaves_no_open_press(buf, codes, Set::empty());
}

fn vec_contains(v: &Vec<u16>, x: u16) -> (r: bool)
    ensures
        r == v@.contains(x),
{
    let mut i: usize = 0;
    while i < v.len()
        invariant
            i <= v.len(),
            forall|j: int| 0 <= j < i ==> v@[j] != x,
        decreases v.len() - i,
    {
        if v[i] == x {
            return true;
        }
        i = i + 1;
    }
    false
}

fn hotkey_combo_of(config: &HotkeyConfig, a: HotkeyAction) -> (r: &KeyCombo)
    ensures
        *r == hotkey_combo(*config, a),
{
    match a {
        HotkeyAction::Record => &config.record,
        HotkeyAction::Play => &config.play,
        HotkeyAction::Stop => &config.stop,
    }
}

/// The keys of `combo` that are held.
fn chord_keys_held(combo: &KeyCombo, held: &HashSet<u16>) -> (r: Vec<u16>)
    ensures
        r@.to_set() == chord_keys(*combo, held@),
{
    let mods = chord_modifier_codes(combo);
    let mut r: Vec<u16> = Vec::new();
    if held.contains(&combo.key_code) {
        r.push(combo.key_code);
    }
    let mut i: usize = 0;
    assert(mods@.take(0) =~= Seq::<u16>::empty());
    assert forall|x: u16| #[trigger] r@.contains(x) <==> ((x == combo.key_code || mods@.take(0).contains(x))
        && held@.contains(x)) by {
        if held@.contains(combo.key_code) {
            assert(r@ =~= Seq::<u16>::empty().push(combo.key_code));
            vstd::seq_lib::lemma_seq_contains_after_push(Seq::<u16>::empty(), combo.key_code, x);
        }
    }
    while i < mods.len()
        invariant
            i <= mods.len(),
            mods@ == chord_codes(*combo),
            forall|x: u16| #[trigger] r@.contains(x) <==> ((x == combo.key_code || mods@.take(i as int).contains(x))
                && held@.contains(x)),
        decreases mods.len() - i,
    {
        let c = mods[i];
        let ghost r0 = r@;
        if held.contains(&c) {
            r.push(c);
        }
        assert(mods@.take(i + 1) =~= mods@.take(i as int).push(c));
        assert forall|x: u16| #[trigger] r@.contains(x) <==> ((x == combo.key_code || mods@.take(i + 1).contains(x))
            && held@.contains(x)) by {
            if held@.contains(c) {
                assert(r@ =~= r0.push(c));
                vstd::seq_lib::lemma_seq_contains_after_push(r0, c, x);
            } else {
                assert(r@ =~= r0);
            }
            vstd::seq_lib::lemma_seq_contains_after_push(mods@.take(i as int), c, x);
        }
        i = i + 1;
    }
    assert(mods@.take(mods.len() as int) =~= mods@);
    assert(r@.to_set() =~= chord_keys(*combo, held@));
    r
}

/// Adds every key of `keys` to `set`.
fn insert_all(set: &mut HashSet<u16>, keys: &Vec<u16>)
    ensures
        final(set)@ == old(set)@.union(keys@.to_set()),
{
    let ghost before = set@;
    let mut i: usize = 0;
    while i < keys.len()
        invariant
            i <= keys.len(),
            forall|x: u16| #[trigger] set@.contains(x) <==> (before.contains(x) || keys@.take(i as int).contains(x)),
        decreases keys.len() - i,
    {
        let k = keys[i];
        set.insert(k);
        assert(keys@.take(i + 1) =~= keys@.take(i as int).push(k));
        assert forall|x: u16| #[trigger] set@.contains(x) <==> (before.contains(x) || keys@.take(i + 1).contains(x)) by {
            vstd::seq_lib::lemma_seq_contains_after_push(keys@.take(i as int), k, x);
        }
        i = i + 1;
    }
    assert(keys@.take(keys.len() as int) =~= keys@);
    assert(set@ =~= before.union(keys@.to_set()));
}

/// Drops the current holds of the keys in `codes` from a recording.
fn strip_holds(buf: &Vec<MacroEvent>, codes: &Vec<u16>) -> (r: Vec<MacroEvent>)
    ensures
        r@ == strip_current_holds(buf@, codes@.to_set()),
{
    let ghost s = codes@.to_set();
    let mut later: HashSet<u16> = HashSet::new();
    let mut rev: Vec<MacroEvent> = Vec::new();
    let mut i: usize = buf.len();
    assert(buf@.take(i as int) =~= buf@);
    assert(rev@.reverse() =~= Seq::<MacroEvent>::empty());
    assert(strip_from_end(buf@, s, Set::empty()) =~= strip_from_end(buf@.take(i as int), s, later@) + rev@.reverse());
    while i > 0
        invariant
            i <= buf.len(),
            s == codes@.to_set(),
            strip_from_end(buf@, s, Set::empty()) == strip_from_end(buf@.take(i as int), s, later@)
                + rev@.reverse(),
        decreases i,
    {
        let e = buf[i - 1];
        let key = e.event_type == EV_KEY;
        let drop = key && vec_contains(codes, e.code) && e.value != 0 && !later.contains(&e.code);
        let ghost part = buf@.take(i as int);
        let ghost old_later = later@;
        let ghost old_rev = rev@;
        assert(part.last() == e);
        assert(part.drop_last() =~= buf@.take(i - 1));
        assert(drop == (key && s.contains(e.code) && e.value != 0 && !old_later.contains(e.code)));
        if key && e.value == 0 {
            later.insert(e.code);
        }
        if !drop {
            rev.push(e);
            assert(rev@.reverse() =~= seq![e] + old_rev.reverse());
        }
        let ghost rest = strip_from_end(buf@.take(i - 1), s, later@);
        assert(strip_from_end(part, s, old_later) == (if drop { rest } else { rest.push(e) }));
        assert(strip_from_end(buf@, s, Set::empty()) =~= rest + rev@.reverse());
        i = i - 1;
    }
    assert(buf@.take(0) =~= Seq::<MacroEvent>::empty());
    let n = rev.len();
    let mut out: Vec<MacroEvent> = Vec::new();
    let mut j: usize = n;
    while j > 0
        invariant
            j <= n,
            n == rev@.len(),
            out@ == rev@.subrange(j as int, n as int).reverse(),
        decreases j,
    {
        let e = rev[j - 1];
        out.push(e);
        assert(rev@.subrange(j - 1, n as int).reverse() =~= rev@.subrange(j as int, n as int).reverse().push(e));
        j = j - 1;
    }
    assert(rev@.subrange(0, n as int) =~= rev@);
    assert(out@ =~= strip_current_holds(buf@, s));
    out
}

impl RecordSession {
    /// An idle recorder that captures every device class, with no key held.
    pub fn new() -> (r: Self)
        ensures
            !r.active,
            r.start_ns == 0,
            r.buffer@.len() == 0,
            r.filter == (RecordFilter { keyboard: true, mouse: true }),
            r.held@ == Set::<u16>::empty(),
            r.suppressed@ == Set::<u16>::empty(),
    {
        RecordSession {
            active: false,
            start_ns: 0,
            buffer: Vec::with_capacity(10_000),
            filter: RecordFilter { keyboard: true, mouse: true },
            held: HashSet::new(),
            suppressed: HashSet::new(),
        }
    }

    /// Starts a capture at `now_ns`, discarding what the last one held.
    pub fn start(&mut self, now_ns: u128)
        ensures
            final(self).active,
            final(self).start_ns == now_ns,
            final(self).buffer@.len() == 0,
            final(self).filter == old(self).filter,
            final(self).held@ == old(self).held@,
            final(self).suppressed@ == old(self).suppressed@,
    {
        self.active = true;
        self.start_ns = now_ns;
        self.buffer.clear();
    }

    /// Stops the capture and hands its events to `rec`, whose duration becomes
    /// the timestamp of the last event; returns the event count and duration.
    pub fn stop(&mut self, rec: &mut MacroRecording) -> (r: (usize, u64))
        ensures
            !final(self).active,
            final(self).start_ns == old(self).start_ns,
            final(self).buffer@ == old(self).buffer@,
            final(self).filter == old(self).filter,
            final(self).held@ == old(self).held@,
            final(self).suppressed@ == old(self).suppressed@,
            final(rec)@ == (old(rec).name@, old(rec).created_at, last_timestamp(old(self).buffer@), old(self).buffer@),
            r == (old(self).buffer@.len() as usize, last_timestamp(old(self).buffer@)),
    {
        self.active = false;
        rec.events = copy_events(&self.buffer);
        rec.duration_us = recording_duration(&self.buffer);
        (rec.events.len(), rec.duration_us)
    }

    /// Changes the device classes to capture.
    pub fn set_filter(&mut self, filter: RecordFilter)
        ensures
            final(self).filter == filter,
            final(self).active == old(self).active,
            final(self).start_ns == old(self).start_ns,
            final(self).buffer@ == old(self).buffer@,
            final(self).held@ == old(self).held@,
            final(self).suppressed@ == old(self).suppressed@,
    {
        self.filter = filter;
    }

    /// Offers a kernel event to the capture; returns whether it was kept.
    /// Hotkey presses are left out: a key event of a key whose hotkey fired is
    /// dropped until that key is released (its release included); a key press
    /// that fires a hotkey is dropped, and so are the current holds of that
    /// hotkey's keys already captured.
    pub fn capture(
        &mut self,
        event_type: u16,
        code: u16,
        value: i32,
        event_time_ns: u128,
        hotkeys: &HotkeyConfig,
    ) -> (kept: bool)
        ensures
            final(self).held@ == held_after_event(old(self).held@, event_type, code, value),
            final(self).active == old(self).active,
            final(self).start_ns == old(self).start_ns,
            final(self).filter == old(self).filter,
            event_type == EV_KEY && old(self).suppressed@.contains(code) ==> {
                &&& !kept
                &&& final(self).buffer@ == old(self).buffer@
                &&& final(self).suppressed@ == (if value == 0 {
                    old(self).suppressed@.remove(code)
                } else {
                    old(self).suppressed@
                })
            },
            !(event_type == EV_KEY && old(self).suppressed@.contains(code)) ==> match fired_combo(
                *hotkeys,
                final(self).held@,
                event_type,
                value,
            ) {
                Some(c) => {
                    &&& !kept
                    &&& final(self).suppressed@ == old(self).suppressed@.union(
                        chord_keys(c, final(self).held@),
                    ).insert(code)
                    &&& final(self).buffer@ == (if old(self).active {
                        strip_current_holds(old(self).buffer@, chord_keys(c, final(self).held@))
                    } else {
                        old(self).buffer@
                    })
                },
                None => {
                    &&& kept == keeps_event(old(self).active, old(self).filter, event_type)
                    &&& final(self).buffer@ == (if kept {
                        old(self).buffer@.push(MacroEvent {
                            timestamp_us: elapsed_us(event_time_ns, old(self).start_ns),
                            event_type,
                            code,
                            value,
                        })
                    } else {
                        old(self).buffer@
                    })
                    &&& final(self).suppressed@ == old(self).suppressed@
                },
            },
    {
        let is_key = event_type == EV_KEY;
        if is_key {
            note_key_event(&mut self.held, code, value);
        }
        if is_key && self.suppressed.contains(&code) {
            if value == 0 {
                self.suppressed.remove(&code);
            }
            return false;
        }
        if is_key && value == 1 {
            match hotkey_action_for(hotkeys, &self.held) {
                Some(a) => {
                    let combo = hotkey_combo_of(hotkeys, a);
                    let keys = chord_keys_held(combo, &self.held);
                    insert_all(&mut self.suppressed, &keys);
                    self.suppressed.insert(code);
                    if self.active {
                        self.buffer = strip_holds(&self.buffer, &keys);
                    }
                    return false;
                },
                None => {},
            }
        }
        if !self.active || event_type == EV_SYN || !crate::models::record_filter_allows(&self.filter, event_type) {
            return false;
        }
        let e = MacroEvent::from_evdev(event_type, code, value, event_time_ns, self.start_ns);
        self.buffer.push(e);
        true
    }
}

} // verus!
