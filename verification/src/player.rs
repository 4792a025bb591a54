//! Decision logic of the player: which keys it holds down, how it waits
//! between events without missing a stop request, how it answers commands,
//! and the order in which it waits, emits, loops and finishes.
use std::collections::HashSet;
use vstd::prelude::*;
use vstd::string::*;
use crate::models::{MacroEvent, AppState, EV_KEY};
use crate::text::{u64_to_decimal, decimal};

verus! {

broadcast use vstd::std_specs::hash::group_hash_axioms;

/// The held-key set after replaying `e`: a key press (value 1) or repeat
/// (value 2) holds the key, a release (value 0) lets it go; other events leave
/// the set as it is.
pub open spec fn held_after(held: Set<u16>, e: MacroEvent) -> Set<u16> {
    if e.event_type == EV_KEY {
        if e.value == 1 || e.value == 2 {
            held.insert(e.code)
        } else if e.value == 0 {
            held.remove(e.code)
        } else {
            held
        }
    } else {
        held
    }
}

/// Tracks which keys a replayed event leaves held down.
pub fn track_held(held: &mut HashSet<u16>, event: &MacroEvent)
    ensures
        final(held)@ == held_after(old(held)@, *event),
{
    if event.event_type == EV_KEY {
        if event.value == 1 || event.value == 2 {
            held.insert(event.code);
        } else if event.value == 0 {
            held.remove(&event.code);
        }
    }
}

/// Empties the held-key set and returns its keys, each once, so that a key-up
/// can be sent for every key a stopped or finished playback left held.
pub fn release_held(held: &mut HashSet<u16>) -> (codes: Vec<u16>)
    ensures
        codes@.to_set() == old(held)@,
        codes@.no_duplicates(),
        final(held)@ == Set::<u16>::empty(),
{
    let ghost h = held@;
    let mut codes: Vec<u16> = Vec::new();
    for code in it: held.iter()
        invariant
            h == held@,
            it.seq() == vstd::std_specs::iter::IteratorSpec::remaining(&vstd::std_specs::hash::spec_hash_keys_iter(held)),
            it.seq().unref().to_set() == h,
            it.seq().unref().no_duplicates(),
            codes@ == it.seq().take(it.index() as int).unref(),
            it.index() == it.seq().len() ==> codes@ == it.seq().unref(),
    {
        codes.push(*code);
        proof {
            assert(it.seq().take(it.index() + 1).unref() =~= codes@);
            assert(it.index() + 1 == it.seq().len() ==> it.seq().take(it.index() + 1) =~= it.seq());
        }
    }
    held.clear();
    codes
}

// ---------------------------------------------------------------------------
// Interruptible waiting
// ---------------------------------------------------------------------------

/// Below this many nanoseconds a wait only busy-waits.
pub const SPIN_ONLY_NS: u128 = 100_000;

/// Longest single sleep while waiting, in nanoseconds; a stop request is seen
/// at least this often.
pub const SLEEP_CHUNK_NS: u128 = 2_000_000;

/// Above this many remaining microseconds a wait sleeps; below it, it spins.
pub const SPIN_TAIL_US: u128 = 800;

/// How a wait proceeds.
#[derive(Debug, Clone, Copy, PartialEq, Eq, Structural)]
pub enum SleepPhase {
    /// A zero-length wait: answer at once.
    Instant,
    /// Sleep in short chunks until close to the deadline.
    Coarse,
    /// Busy-wait until the deadline.
    Spin,
}

/// What a wait does next.
#[derive(Debug, Clone, Copy, PartialEq, Eq, Structural)]
pub enum SleepAction {
    /// The wait is over: `true` when the deadline was reached, `false` when stopped.
    Done(bool),
    /// Sleep this many nanoseconds, then ask again.
    Sleep(u64),
    /// Spin once, then ask again.
    SpinOnce,
    /// Ask again at once (the wait has switched to spinning).
    Recheck,
}

/// The first phase of a wait of `duration_ns`.
pub open spec fn start_phase(duration_ns: u128) -> SleepPhase {
    if duration_ns == 0 {
        SleepPhase::Instant
    } else if duration_ns < SPIN_ONLY_NS {
        SleepPhase::Spin
    } else {
        SleepPhase::Coarse
    }
}

/// The next phase and action of a wait in `phase`, given the stop flag and the
/// nanoseconds left until the deadline (0 once it has passed).
pub open spec fn sleep_decision(phase: SleepPhase, stop: bool, remaining_ns: u128) -> (SleepPhase, SleepAction) {
    match phase {
        SleepPhase::Instant => (SleepPhase::Instant, SleepAction::Done(!stop)),
        SleepPhase::Spin => {
            if remaining_ns > 0 {
                if stop {
                    (SleepPhase::Spin, SleepAction::Done(false))
                } else {
                    (SleepPhase::Spin, SleepAction::SpinOnce)
                }
            } else {
                (SleepPhase::Spin, SleepAction::Done(!stop))
            }
        },
        SleepPhase::Coarse => {
            if stop {
                (SleepPhase::Coarse, SleepAction::Done(false))
            } else if remaining_ns == 0 {
                (SleepPhase::Coarse, SleepAction::Done(true))
            } else if remaining_ns / 1000 > SPIN_TAIL_US {
                (
                    SleepPhase::Coarse,
                    SleepAction::Sleep(
                        (if remaining_ns < SLEEP_CHUNK_NS { remaining_ns } else { SLEEP_CHUNK_NS }) as u64,
                    ),
                )
            } else {
                (SleepPhase::Spin, SleepAction::Recheck)
            }
        },
    }
}

/// The first phase of an interruptible wait of `duration_ns`: zero waits
/// answer at once, waits under 100µs spin, longer ones sleep in chunks first.
pub fn sleep_start(duration_ns: u128) -> (r: SleepPhase)
    ensures
        r == start_phase(duration_ns),
{
    if duration_ns == 0 {
        SleepPhase::Instant
    } else if duration_ns < SPIN_ONLY_NS {
        SleepPhase::Spin
    } else {
        SleepPhase::Coarse
    }
}

/// One step of an interruptible wait.
pub fn sleep_step(phase: SleepPhase, stop: bool, remaining_ns: u128) -> (r: (SleepPhase, SleepAction))
    ensures
        r == sleep_decision(phase, stop, remaining_ns),
{
    match phase {
        SleepPhase::Instant => (SleepPhase::Instant, SleepAction::Done(!stop)),
        SleepPhase::Spin => {
            if remaining_ns > 0 {
                if stop {
                    (SleepPhase::Spin, SleepAction::Done(false))
                } else {
                    (SleepPhase::Spin, SleepAction::SpinOnce)
                }
            } else {
                (SleepPhase::Spin, SleepAction::Done(!stop))
            }
        },
        SleepPhase::Coarse => {
            if stop {
                (SleepPhase::Coarse, SleepAction::Done(false))
            } else if remaining_ns == 0 {
                (SleepPhase::Coarse, SleepAction::Done(true))
            } else if remaining_ns / 1000 > SPIN_TAIL_US {
                let chunk: u128 = if remaining_ns < SLEEP_CHUNK_NS { remaining_ns } else { SLEEP_CHUNK_NS };
                (SleepPhase::Coarse, SleepAction::Sleep(chunk as u64))
            } else {
                (SleepPhase::Spin, SleepAction::Recheck)
            }
        },
    }
}

/// Proof of the waiting laws: a raised stop flag ends every wait at once with
/// `false`; a wait only reports `true` with the flag down; a sleep never
/// outlasts the deadline nor the chunk length.
pub proof fn lemma_sleep_laws(phase: SleepPhase, stop: bool, remaining_ns: u128)
    ensures
        stop ==> sleep_decision(phase, stop, remaining_ns).1 == SleepAction::Done(false),
        sleep_decision(phase, stop, remaining_ns).1 == SleepAction::Done(true) ==> !stop,
        sleep_decision(phase, stop, remaining_ns).1 matches SleepAction::Sleep(d) ==> d <= remaining_ns
            && d <= SLEEP_CHUNK_NS && d > 0,
        phase == SleepPhase::Coarse && remaining_ns == 0 ==> sleep_decision(phase, stop, remaining_ns).1
            is Done,
{
}

/// Proof that only an empty wait is over at once: a wait starts in the
/// instant phase exactly when its duration is zero; a positive wait starts
/// spinning (under 100µs) or sleeping in chunks, and from either of those
/// phases it reports its deadline reached only once no time is left; while
/// time is left and the flag is down it spins or sleeps, and each sleep is a
/// chunk of at most 2ms that never passes the deadline.
pub proof fn lemma_positive_wait_runs_to_deadline(duration_ns: u128, phase: SleepPhase, remaining_ns: u128)
    ensures
        start_phase(duration_ns) == SleepPhase::Instant <==> duration_ns == 0,
        duration_ns > 0 && duration_ns < 100_000 ==> start_phase(duration_ns) == SleepPhase::Spin,
        duration_ns >= 100_000 ==> start_phase(duration_ns) == SleepPhase::Coarse,
        phase != SleepPhase::Instant ==> sleep_decision(phase, false, remaining_ns).0 != SleepPhase::Instant,
        phase != SleepPhase::Instant && sleep_decision(phase, false, remaining_ns).1 == SleepAction::Done(true)
            ==> remaining_ns == 0,
        phase != SleepPhase::Instant && remaining_ns > 0 ==> !(sleep_decision(phase, false, remaining_ns).1 is Done),
        phase == SleepPhase::Coarse && remaining_ns > 1_000_000 ==> sleep_decision(phase, false, remaining_ns).1
            == SleepAction::Sleep((if remaining_ns < 2_000_000 { remaining_ns } else { 2_000_000 }) as u64),
{
}

// ---------------------------------------------------------------------------
// Commands
// ---------------------------------------------------------------------------

/// The commands the player acts on; every other command is `Other`.
#[derive(Debug, Clone, Copy, PartialEq, Eq, Structural)]
pub enum PlayerCommand {
    StartPlayback,
    StopPlayback,
    SetLoopCount(u32),
    Quit,
    Other,
}

/// What the player does with a command.
#[derive(Debug, Clone, Copy)]
pub struct CommandEffect {
    /// Begin a playback (clearing the stop flag).
    pub start: bool,
    /// Raise the shared stop flag.
    pub raise_stop: bool,
    /// The application state to publish, if any.
    pub state: Option<AppState>,
    /// The status message to send, if any.
    pub notice: Option<&'static str>,
    /// The new loop count to remember, if any.
    pub loop_count: Option<u32>,
    /// Leave the player thread.
    pub quit: bool,
}

/// The effect that changes nothing.
pub open spec fn no_effect() -> CommandEffect {
    CommandEffect { start: false, raise_stop: false, state: None, notice: None, loop_count: None, quit: false }
}

/// The player's answer to a command while it is idle.
pub open spec fn idle_effect(cmd: PlayerCommand) -> CommandEffect {
    match cmd {
        PlayerCommand::StartPlayback => CommandEffect {
            start: true,
            state: Some(AppState::Playing),
            notice: Some("Playback started"),
            ..no_effect()
        },
        PlayerCommand::SetLoopCount(n) => CommandEffect { loop_count: Some(n), ..no_effect() },
        PlayerCommand::Quit => CommandEffect { quit: true, ..no_effect() },
        _ => no_effect(),
    }
}

/// The player's answer to a command that arrives during a playback.
pub open spec fn playing_effect(cmd: PlayerCommand) -> CommandEffect {
    match cmd {
        PlayerCommand::StopPlayback => CommandEffect {
            raise_stop: true,
            state: Some(AppState::Idle),
            notice: Some("Playback stopped"),
            ..no_effect()
        },
        PlayerCommand::SetLoopCount(n) => CommandEffect { loop_count: Some(n), ..no_effect() },
        PlayerCommand::Quit => CommandEffect { raise_stop: true, quit: true, ..no_effect() },
        _ => no_effect(),
    }
}

fn nothing() -> (r: CommandEffect)
    ensures
        r == no_effect(),
{
    CommandEffect { start: false, raise_stop: false, state: None, notice: None, loop_count: None, quit: false }
}

/// How the idle player answers a command: a start begins playing, a stop is
/// ignored, a loop count is remembered, quit leaves.
pub fn idle_command_effect(cmd: PlayerCommand) -> (r: CommandEffect)
    ensures
        r == idle_effect(cmd),
{
    match cmd {
        PlayerCommand::StartPlayback => CommandEffect {
            start: true,
            state: Some(AppState::Playing),
            notice: Some("Playback started"),
            ..nothing()
        },
        PlayerCommand::SetLoopCount(n) => CommandEffect { loop_count: Some(n), ..nothing() },
        PlayerCommand::Quit => CommandEffect { quit: true, ..nothing() },
        _ => nothing(),
    }
}

/// How the playing player answers a command: a stop raises the stop flag and
/// reports idle, a loop count is remembered for the next playback, quit raises
/// the stop flag and leaves, a second start is ignored.
pub fn playing_command_effect(cmd: PlayerCommand) -> (r: CommandEffect)
    ensures
        r == playing_effect(cmd),
{
    match cmd {
        PlayerCommand::StopPlayback => CommandEffect {
            raise_stop: true,
            state: Some(AppState::Idle),
            notice: Some("Playback stopped"),
            ..nothing()
        },
        PlayerCommand::SetLoopCount(n) => CommandEffect { loop_count: Some(n), ..nothing() },
        PlayerCommand::Quit => CommandEffect { raise_stop: true, quit: true, ..nothing() },
        _ => nothing(),
    }
}

// ---------------------------------------------------------------------------
// Playback
// ---------------------------------------------------------------------------

/// The pause between two rounds of a looping playback, in milliseconds.
pub const LOOP_GAP_MS: u64 = 50;

/// Where a playback stands within the current round.
#[derive(Debug, Clone, Copy, PartialEq, Eq, Structural)]
pub enum PlayPhase {
    /// Before the event at `index` (or at the end of the round).
    NextEvent,
    /// Commands were read before the event at `index`.
    Polled,
    /// The wait before the event at `index` is over.
    Waited,
    /// The round is complete and reported.
    RoundEnded,
}

/// What the player does next.
#[derive(Debug, Clone, Copy, PartialEq, Eq, Structural)]
pub enum PlayStep {
    /// Read pending commands.
    Poll,
    /// Wait this many microseconds (interruptibly).
    Wait(u64),
    /// Send the event at this index to the virtual device.
    Emit(usize),
    /// A round is complete: report it.
    RoundDone,
    /// Pause between rounds (interruptibly).
    Gap,
    /// The playback is over: release held keys and report.
    Finish,
}

/// The progress of one playback.
#[derive(Debug, Clone, Copy, PartialEq, Eq, Structural)]
pub struct Playback {
    /// Rounds to play; 0 plays until stopped.
    pub loop_count: u32,
    /// Rounds completed so far.
    pub completed_loops: u32,
    /// The next event of the current round.
    pub index: usize,
    /// The timestamp of the event emitted last in this round (0 at its start).
    pub last_timestamp_us: u64,
    pub phase: PlayPhase,
}

/// Another round is owed: the count is unlimited or not yet reached.
pub open spec fn more_rounds(p: Playback) -> bool {
    p.loop_count == 0 || p.completed_loops < p.loop_count
}

/// The wait before event `i`: its timestamp minus `last`, or 0 if it is earlier.
pub open spec fn delay_before(events: Seq<MacroEvent>, i: int, last: u64) -> u64 {
    if events[i].timestamp_us >= last {
        (events[i].timestamp_us - last) as u64
    } else {
        0
    }
}

/// The consistent states of a playback of `events`.
pub open spec fn playback_wf(p: Playback, events: Seq<MacroEvent>) -> bool {
    &&& events.len() > 0
    &&& events.len() <= usize::MAX
    &&& p.index <= events.len()
    &&& p.last_timestamp_us == (if p.index == 0 { 0 } else { events[p.index - 1].timestamp_us })
    &&& (p.phase == PlayPhase::Polled || p.phase == PlayPhase::Waited) ==> p.index < events.len()
    &&& p.phase == PlayPhase::RoundEnded ==> p.index == events.len()
    &&& p.loop_count > 0 ==> p.completed_loops <= p.loop_count
    &&& p.loop_count > 0 && p.phase != PlayPhase::RoundEnded ==> p.completed_loops < p.loop_count
}

/// The next step of a playback: a raised stop flag finishes it; otherwise each
/// event is preceded by a command poll and by the wait its timestamp asks for,
/// each round ends with a report, and rounds are separated by a pause while
/// more are owed.
pub open spec fn next_play_step(p: Playback, events: Seq<MacroEvent>, stop: bool) -> PlayStep {
    if stop {
        PlayStep::Finish
    } else {
        match p.phase {
            PlayPhase::NextEvent => if p.index < events.len() {
                PlayStep::Poll
            } else {
                PlayStep::RoundDone
            },
            PlayPhase::Polled => {
                let d = delay_before(events, p.index as int, p.last_timestamp_us);
                if d > 0 {
                    PlayStep::Wait(d)
                } else {
                    PlayStep::Emit(p.index)
                }
            },
            PlayPhase::Waited => PlayStep::Emit(p.index),
            PlayPhase::RoundEnded => if more_rounds(p) {
                PlayStep::Gap
            } else {
                PlayStep::Finish
            },
        }
    }
}

/// The report of a completed round: `Loop c/n`, or `Loop c (infinite)` when unlimited.
pub open spec fn round_notice(completed: u32, loop_count: u32) -> Seq<char> {
    if loop_count == 0 {
        "Loop "@ + decimal(completed as nat) + " (infinite)"@
    } else {
        "Loop "@ + decimal(completed as nat) + "/"@ + decimal(loop_count as nat)
    }
}

/// The report at the end of a playback.
pub open spec fn finish_text(stopped: bool, released: usize) -> Seq<char> {
    if stopped {
        if released > 0 {
            "Playback stopped ("@ + decimal(released as nat) + " keys released)"@
        } else {
            "Playback stopped"@
        }
    } else {
        "Playback finished"@
    }
}

impl Playback {
    /// A playback of `loop_count` rounds (0: until stopped) of `events`; none
    /// when there is nothing to play.
    pub fn start(loop_count: u32, events: &Vec<MacroEvent>) -> (r: Option<Playback>)
        ensures
            events@.len() == 0 <==> r is None,
            r matches Some(p) ==> p == (Playback {
                loop_count,
                completed_loops: 0,
                index: 0,
                last_timestamp_us: 0,
                phase: PlayPhase::NextEvent,
            }) && playback_wf(p, events@),
    {
        if events.len() == 0 {
            None
        } else {
            Some(Playback {
                loop_count,
                completed_loops: 0,
                index: 0,
                last_timestamp_us: 0,
                phase: PlayPhase::NextEvent,
            })
        }
    }

    /// What to do next, given the stop flag.
    pub fn next_step(&self, events: &Vec<MacroEvent>, stop: bool) -> (r: PlayStep)
        requires
            playback_wf(*self, events@),
        ensures
            r == next_play_step(*self, events@, stop),
    {
        if stop {
            return PlayStep::Finish;
        }
        match self.phase {
            PlayPhase::NextEvent => {
                if self.index < events.len() {
                    PlayStep::Poll
                } else {
                    PlayStep::RoundDone
                }
            },
            PlayPhase::Polled => {
                let ts = events[self.index].timestamp_us;
                let d: u64 = if ts >= self.last_timestamp_us { ts - self.last_timestamp_us } else { 0 };
                if d > 0 {
                    PlayStep::Wait(d)
                } else {
                    PlayStep::Emit(self.index)
                }
            },
            PlayPhase::Waited => PlayStep::Emit(self.index),
            PlayPhase::RoundEnded => {
                if self.loop_count == 0 || self.completed_loops < self.loop_count {
                    PlayStep::Gap
                } else {
                    PlayStep::Finish
                }
            },
        }
    }

    /// Commands were read before the next event.
    pub fn polled(&mut self, events: &Vec<MacroEvent>)
        requires
            playback_wf(*old(self), events@),
            old(self).phase == PlayPhase::NextEvent,
            old(self).index < events@.len(),
        ensures
            *final(self) == (Playback { phase: PlayPhase::Polled, ..*old(self) }),
            playback_wf(*final(self), events@),
    {
        self.phase = PlayPhase::Polled;
    }

    /// The wait before the next event is over.
    pub fn waited(&mut self, events: &Vec<MacroEvent>)
        requires
            playback_wf(*old(self), events@),
            old(self).phase == PlayPhase::Polled,
        ensures
            *final(self) == (Playback { phase: PlayPhase::Waited, ..*old(self) }),
            playback_wf(*final(self), events@),
    {
        self.phase = PlayPhase::Waited;
    }

    /// The next event was sent; move past it.
    pub fn emitted(&mut self, events: &Vec<MacroEvent>)
        requires
            playback_wf(*old(self), events@),
            old(self).phase == PlayPhase::Polled || old(self).phase == PlayPhase::Waited,
        ensures
            *final(self) == (Playback {
                index: (old(self).index + 1) as usize,
                last_timestamp_us: events@[old(self).index as int].timestamp_us,
                phase: PlayPhase::NextEvent,
                ..*old(self)
            }),
            playback_wf(*final(self), events@),
    {
        let n = events.len();
        self.last_timestamp_us = events[self.index].timestamp_us;
        assert(self.index < n);
        self.index = self.index + 1;
        self.phase = PlayPhase::NextEvent;
    }

    /// The round is complete; count it and return its report.
    pub fn round_done(&mut self, events: &Vec<MacroEvent>) -> (notice: String)
        requires
            playback_wf(*old(self), events@),
            old(self).phase == PlayPhase::NextEvent,
            old(self).index == events@.len(),
        ensures
            *final(self) == (Playback {
                completed_loops: (if old(self).completed_loops == u32::MAX { 0 } else { old(self).completed_loops + 1 }) as u32,
                phase: PlayPhase::RoundEnded,
                ..*old(self)
            }),
            playback_wf(*final(self), events@),
            notice@ == round_notice(final(self).completed_loops, old(self).loop_count),
    {
        self.completed_loops = self.completed_loops.wrapping_add(1);
        self.phase = PlayPhase::RoundEnded;
        let mut notice = String::from_str("Loop ");
        let c = u64_to_decimal(self.completed_loops as u64);
        notice.append(c.as_str());
        if self.loop_count == 0 {
            notice.append(" (infinite)");
        } else {
            notice.append("/");
            let n = u64_to_decimal(self.loop_count as u64);
            notice.append(n.as_str());
        }
        notice
    }

    /// The pause after a round is over; start the next round.
    pub fn next_round(&mut self, events: &Vec<MacroEvent>)
        requires
            playback_wf(*old(self), events@),
            old(self).phase == PlayPhase::RoundEnded,
            more_rounds(*old(self)),
        ensures
            *final(self) == (Playback {
                index: 0,
                last_timestamp_us: 0,
                phase: PlayPhase::NextEvent,
                ..*old(self)
            }),
            playback_wf(*final(self), events@),
    {
        self.index = 0;
        self.last_timestamp_us = 0;
        self.phase = PlayPhase::NextEvent;
    }
}

/// The report at the end of a playback: stopped (with the number of keys it
/// had to release, when any) or finished.
pub fn finish_notice(stopped: bool, released: usize) -> (r: String)
    ensures
        r@ == finish_text(stopped, released),
{
    if stopped {
        if released > 0 {
            let mut s = String::from_str("Playback stopped (");
            let n = u64_to_decimal(released as u64);
            s.append(n.as_str());
            s.append(" keys released)");
            s
        } else {
            String::from_str("Playback stopped")
        }
    } else {
        String::from_str("Playback finished")
    }
}

/// Proof of the playback laws: a raised stop flag finishes the playback at
/// any point; the wait before an event is the time the recording left between
/// it and the event before (from the round's start for the first); a limited
/// playback never counts more rounds than asked, and finishes once they are
/// done; an unlimited one (count 0) finishes only when stopped.
pub proof fn lemma_playback_laws(p: Playback, events: Seq<MacroEvent>, stop: bool)
    requires
        playback_wf(p, events),
    ensures
        stop ==> next_play_step(p, events, stop) == PlayStep::Finish,
        next_play_step(p, events, stop) matches PlayStep::Wait(d) ==> {
            &&& p.index < events.len()
            &&& d == (if p.index == 0 {
                events[p.index as int].timestamp_us as int
            } else {
                events[p.index as int].timestamp_us - events[p.index - 1].timestamp_us
            })
        },
        next_play_step(p, events, stop) matches PlayStep::Emit(i) ==> i == p.index && i < events.len(),
        p.loop_count > 0 ==> p.completed_loops <= p.loop_count,
        p.loop_count > 0 && p.completed_loops == p.loop_count && p.phase == PlayPhase::RoundEnded
            ==> next_play_step(p, events, stop) == PlayStep::Finish,
        p.loop_count == 0 ==> (next_play_step(p, events, stop) == PlayStep::Finish <==> stop),
{
}

/// Proof that every positive gap the recording left is waited, whatever its
/// length: once commands are read before event `i` and the flag is down, the
/// next step is a wait of exactly the time between event `i` and the event
/// before it (its own timestamp for the first event of a round) when that is
/// positive, and the event itself otherwise; after that wait the event is
/// sent.
pub proof fn lemma_every_gap_is_waited(p: Playback, events: Seq<MacroEvent>)
    requires
        playback_wf(p, events),
        p.phase == PlayPhase::Polled,
    ensures
        ({
            let i = p.index as int;
            let gap: int = if i == 0 {
                events[i].timestamp_us as int
            } else {
                events[i].timestamp_us - events[i - 1].timestamp_us
            };
            &&& gap > 0 ==> next_play_step(p, events, false) == PlayStep::Wait(gap as u64)
            &&& gap <= 0 ==> next_play_step(p, events, false) == PlayStep::Emit(p.index)
            &&& next_play_step(Playback { phase: PlayPhase::Waited, ..p }, events, false) == PlayStep::Emit(
                p.index,
            )
        }),
{
}

/// The state a playback moves to when the player carries out its next step
/// with the stop flag down (a finished playback stays as it is).
pub open spec fn after_step(p: Playback, events: Seq<MacroEvent>) -> Playback {
    match next_play_step(p, events, false) {
        PlayStep::Poll => Playback { phase: PlayPhase::Polled, ..p },
        PlayStep::Wait(_) => Playback { phase: PlayPhase::Waited, ..p },
        PlayStep::Emit(i) => Playback {
            index: (i + 1) as usize,
            last_timestamp_us: events[i as int].timestamp_us,
            phase: PlayPhase::NextEvent,
            ..p
        },
        PlayStep::RoundDone => Playback {
            completed_loops: (if p.completed_loops == u32::MAX { 0 } else { p.completed_loops + 1 }) as u32,
            phase: PlayPhase::RoundEnded,
            ..p
        },
        PlayStep::Gap => Playback { index: 0, last_timestamp_us: 0, phase: PlayPhase::NextEvent, ..p },
        PlayStep::Finish => p,
    }
}

/// The state after `k` steps with the stop flag down.
pub open spec fn state_after(p: Playback, events: Seq<MacroEvent>, k: nat) -> Playback
    decreases k,
{
    if k == 0 {
        p
    } else {
        state_after(after_step(p, events), events, (k - 1) as nat)
    }
}

/// The indices of the events emitted during `k` steps with the stop flag down.
pub open spec fn emitted_during(p: Playback, events: Seq<MacroEvent>, k: nat) -> Seq<usize>
    decreases k,
{
    if k == 0 {
        Seq::empty()
    } else {
        let rest = emitted_during(after_step(p, events), events, (k - 1) as nat);
        match next_play_step(p, events, false) {
            PlayStep::Emit(i) => seq![i] + rest,
            _ => rest,
        }
    }
}

/// The indices `from`, `from + 1`, ..., `to - 1`.
pub open spec fn index_range(from: nat, to: nat) -> Seq<usize>
    decreases to - from,
{
    if from >= to {
        Seq::empty()
    } else {
        seq![from as usize] + index_range(from + 1, to)
    }
}

/// The indices of a whole recording of `n` events, `rounds` times over.
pub open spec fn rounds_of(n: nat, rounds: nat) -> Seq<usize>
    decreases rounds,
{
    if rounds == 0 {
        Seq::empty()
    } else {
        index_range(0, n) + rounds_of(n, (rounds - 1) as nat)
    }
}

proof fn lemma_steps_compose(p: Playback, events: Seq<MacroEvent>, a: nat, b: nat)
    ensures
        state_after(p, events, a + b) == state_after(state_after(p, events, a), events, b),
        emitted_during(p, events, a + b) == emitted_during(p, events, a) + emitted_during(
            state_after(p, events, a),
            events,
            b,
        ),
    decreases a,
{
    if a == 0 {
        assert(emitted_during(p, events, 0) + emitted_during(p, events, b) =~= emitted_during(p, events, b));
    } else {
        let q = after_step(p, events);
        lemma_steps_compose(q, events, (a - 1) as nat, b);
        assert((a + b - 1) as nat == (a - 1) as nat + b);
        let rest_ab = emitted_during(q, events, (a + b - 1) as nat);
        let rest_a = emitted_during(q, events, (a - 1) as nat);
        let tail = emitted_during(state_after(q, events, (a - 1) as nat), events, b);
        match next_play_step(p, events, false) {
            PlayStep::Emit(i) => {
                assert(seq![i] + (rest_a + tail) =~= (seq![i] + rest_a) + tail);
            },
            _ => {},
        }
    }
}

/// Proof that, with the stop flag down, a round running from event `i` emits
/// events `i` to the last one, in order, each once, and then reaches the end
/// of the round.
proof fn lemma_rest_of_round(p: Playback, events: Seq<MacroEvent>) -> (k: nat)
    requires
        playback_wf(p, events),
        p.phase == PlayPhase::NextEvent,
    ensures
        emitted_during(p, events, k) == index_range(p.index as nat, events.len()),
        state_after(p, events, k) == (Playback { index: events.len() as usize, last_timestamp_us: events.last().timestamp_us, ..p }),
        playback_wf(state_after(p, events, k), events),
    decreases events.len() - p.index,
{
    if p.index >= events.len() {
        assert(p.index == events.len());
        assert(emitted_during(p, events, 0) =~= index_range(p.index as nat, events.len()));
        0
    } else {
        let p1 = after_step(p, events);
        assert(p1 == Playback { phase: PlayPhase::Polled, ..p });
        let d = delay_before(events, p.index as int, p.last_timestamp_us);
        let (p2, j) = if d > 0 {
            (after_step(p1, events), 2nat)
        } else {
            (p1, 1nat)
        };
        let q = after_step(p2, events);
        assert(next_play_step(p2, events, false) == PlayStep::Emit(p.index));
        assert(q == Playback {
            index: (p.index + 1) as usize,
            last_timestamp_us: events[p.index as int].timestamp_us,
            phase: PlayPhase::NextEvent,
            ..p
        });
        assert(playback_wf(q, events));
        let k_rest = lemma_rest_of_round(q, events);
        let k_head = j + 1;
        assert(state_after(p, events, k_head) == q) by {
            reveal_with_fuel(state_after, 4);
        }
        assert(emitted_during(p, events, k_head) =~= seq![p.index]) by {
            reveal_with_fuel(emitted_during, 4);
        }
        lemma_steps_compose(p, events, k_head, k_rest);
        assert(index_range(p.index as nat, events.len()) =~= seq![p.index] + index_range(
            (p.index + 1) as nat,
            events.len(),
        ));
        k_head + k_rest
    }
}

/// Proof that a limited playback with the stop flag down plays the whole
/// recording, in order, as many times as asked, and then finishes: from its
/// start, some number of steps emits exactly those events and ends in a state
/// whose next step is `Finish`.
pub proof fn lemma_full_playback(loop_count: u32, events: Seq<MacroEvent>) -> (k: nat)
    requires
        loop_count > 0,
        0 < events.len() <= usize::MAX,
    ensures
        emitted_during(
            Playback { loop_count, completed_loops: 0, index: 0, last_timestamp_us: 0, phase: PlayPhase::NextEvent },
            events,
            k,
        ) == rounds_of(events.len(), loop_count as nat),
        next_play_step(
            state_after(
                Playback { loop_count, completed_loops: 0, index: 0, last_timestamp_us: 0, phase: PlayPhase::NextEvent },
                events,
                k,
            ),
            events,
            false,
        ) == PlayStep::Finish,
{
    let p = Playback { loop_count, completed_loops: 0, index: 0, last_timestamp_us: 0, phase: PlayPhase::NextEvent };
    lemma_rounds_from(p, events)
}

proof fn lemma_rounds_from(p: Playback, events: Seq<MacroEvent>) -> (k: nat)
    requires
        playback_wf(p, events),
        p.phase == PlayPhase::NextEvent,
        p.index == 0,
        p.loop_count > 0,
    ensures
        emitted_during(p, events, k) == rounds_of(events.len(), (p.loop_count - p.completed_loops) as nat),
        next_play_step(state_after(p, events, k), events, false) == PlayStep::Finish,
    decreases p.loop_count - p.completed_loops,
{
    let k1 = lemma_rest_of_round(p, events);
    let e = state_after(p, events, k1);
    assert(next_play_step(e, events, false) == PlayStep::RoundDone);
    let f = after_step(e, events);
    assert(f.completed_loops == p.completed_loops + 1);
    assert(state_after(e, events, 1) == f) by {
        reveal_with_fuel(state_after, 2);
    }
    assert(emitted_during(e, events, 1) =~= Seq::<usize>::empty()) by {
        reveal_with_fuel(emitted_during, 2);
    }
    lemma_steps_compose(p, events, k1, 1);
    let n = events.len();
    let left = (p.loop_count - p.completed_loops) as nat;
    assert(index_range(0, n) == emitted_during(p, events, k1));
    if f.completed_loops == p.loop_count {
        assert(next_play_step(f, events, false) == PlayStep::Finish);
        assert(rounds_of(n, 0) =~= Seq::<usize>::empty());
        assert(left == 1);
        assert(rounds_of(n, left) =~= index_range(0, n) + rounds_of(n, 0));
        assert(emitted_during(p, events, k1 + 1) =~= rounds_of(n, left));
        k1 + 1
    } else {
        assert(next_play_step(f, events, false) == PlayStep::Gap);
        let g = after_step(f, events);
        assert(playback_wf(g, events));
        assert(state_after(f, events, 1) == g) by {
            reveal_with_fuel(state_after, 2);
        }
        assert(emitted_during(f, events, 1) =~= Seq::<usize>::empty()) by {
            reveal_with_fuel(emitted_during, 2);
        }
        lemma_steps_compose(p, events, k1 + 1, 1);
        let k2 = lemma_rounds_from(g, events);
        lemma_steps_compose(p, events, k1 + 2, k2);
        assert(rounds_of(n, left) =~= index_range(0, n) + rounds_of(n, (left - 1) as nat));
        assert(emitted_during(p, events, k1 + 2 + k2) =~= rounds_of(n, left));
        k1 + 2 + k2
    }
}

} // verus!
