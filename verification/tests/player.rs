use std::collections::HashSet;
use tinytask::models::{AppState, MacroEvent};
use tinytask::player::{
    finish_notice, idle_command_effect, playing_command_effect, release_held, sleep_start, sleep_step,
    track_held, PlayPhase, PlayStep, Playback, PlayerCommand, SleepAction, SleepPhase,
};

#[test]
fn held_tracking_key_down_up() {
    let mut held = HashSet::new();
    let down = MacroEvent { timestamp_us: 0, event_type: 1, code: 29, value: 1 };
    let repeat = MacroEvent { timestamp_us: 10, event_type: 1, code: 29, value: 2 };
    let rel = MacroEvent { timestamp_us: 20, event_type: 2, code: 0, value: 5 };
    let up = MacroEvent { timestamp_us: 30, event_type: 1, code: 29, value: 0 };
    track_held(&mut held, &down);
    track_held(&mut held, &repeat);
    assert!(held.contains(&29));
    track_held(&mut held, &rel);
    assert!(held.contains(&29));
    track_held(&mut held, &up);
    assert!(held.is_empty());
}

#[test]
fn release_returns_every_held_key_once() {
    let mut held: HashSet<u16> = [29, 42, 272].into_iter().collect();
    let mut codes = release_held(&mut held);
    codes.sort();
    assert_eq!(codes, vec![29, 42, 272]);
    assert!(held.is_empty());
    assert!(release_held(&mut held).is_empty());
}

#[test]
fn sleep_phases_by_length() {
    assert_eq!(sleep_start(0), SleepPhase::Instant);
    assert_eq!(sleep_start(99_999), SleepPhase::Spin);
    assert_eq!(sleep_start(100_000), SleepPhase::Coarse);
}

#[test]
fn sleep_steps() {
    // a stop request ends every phase with "stopped"
    assert_eq!(sleep_step(SleepPhase::Instant, true, 0).1, SleepAction::Done(false));
    assert_eq!(sleep_step(SleepPhase::Coarse, true, 5_000_000).1, SleepAction::Done(false));
    assert_eq!(sleep_step(SleepPhase::Spin, true, 10).1, SleepAction::Done(false));
    // long remainders sleep in chunks of at most 2ms, never past the deadline
    assert_eq!(sleep_step(SleepPhase::Coarse, false, 5_000_000), (SleepPhase::Coarse, SleepAction::Sleep(2_000_000)));
    assert_eq!(sleep_step(SleepPhase::Coarse, false, 1_500_000), (SleepPhase::Coarse, SleepAction::Sleep(1_500_000)));
    // the last 800µs are spun
    assert_eq!(sleep_step(SleepPhase::Coarse, false, 800_999), (SleepPhase::Spin, SleepAction::Recheck));
    assert_eq!(sleep_step(SleepPhase::Coarse, false, 801_000), (SleepPhase::Coarse, SleepAction::Sleep(801_000)));
    assert_eq!(sleep_step(SleepPhase::Spin, false, 10), (SleepPhase::Spin, SleepAction::SpinOnce));
    // the deadline is reached
    assert_eq!(sleep_step(SleepPhase::Coarse, false, 0).1, SleepAction::Done(true));
    assert_eq!(sleep_step(SleepPhase::Spin, false, 0).1, SleepAction::Done(true));
    assert_eq!(sleep_step(SleepPhase::Instant, false, 0).1, SleepAction::Done(true));
}

#[test]
fn command_effects() {
    let start = idle_command_effect(PlayerCommand::StartPlayback);
    assert!(start.start && !start.raise_stop && !start.quit);
    assert_eq!(start.state, Some(AppState::Playing));
    assert_eq!(start.notice, Some("Playback started"));
    let idle_stop = idle_command_effect(PlayerCommand::StopPlayback);
    assert!(!idle_stop.start && !idle_stop.raise_stop && idle_stop.state.is_none() && idle_stop.notice.is_none());
    assert_eq!(idle_command_effect(PlayerCommand::SetLoopCount(3)).loop_count, Some(3));
    assert!(idle_command_effect(PlayerCommand::Quit).quit);
    assert!(!idle_command_effect(PlayerCommand::Other).quit);

    let stop = playing_command_effect(PlayerCommand::StopPlayback);
    assert!(stop.raise_stop && !stop.quit && !stop.start);
    assert_eq!(stop.state, Some(AppState::Idle));
    assert_eq!(stop.notice, Some("Playback stopped"));
    let quit = playing_command_effect(PlayerCommand::Quit);
    assert!(quit.raise_stop && quit.quit);
    let again = playing_command_effect(PlayerCommand::StartPlayback);
    assert!(!again.start && !again.raise_stop);
    assert_eq!(playing_command_effect(PlayerCommand::SetLoopCount(0)).loop_count, Some(0));
}

fn ev(ts: u64, code: u16, value: i32) -> MacroEvent {
    MacroEvent { timestamp_us: ts, event_type: 1, code, value }
}

/// Drives a playback with the stop flag down, carrying out each step; returns
/// the steps taken (at most `limit`) and the round reports.
fn drive(loop_count: u32, events: &Vec<MacroEvent>, limit: usize) -> (Vec<PlayStep>, Vec<String>) {
    let mut p = Playback::start(loop_count, events).unwrap();
    let mut steps = Vec::new();
    let mut notes = Vec::new();
    while steps.len() < limit {
        let s = p.next_step(events, false);
        steps.push(s);
        match s {
            PlayStep::Poll => p.polled(events),
            PlayStep::Wait(_) => p.waited(events),
            PlayStep::Emit(_) => p.emitted(events),
            PlayStep::RoundDone => notes.push(p.round_done(events)),
            PlayStep::Gap => p.next_round(events),
            PlayStep::Finish => break,
        }
    }
    (steps, notes)
}

#[test]
fn playback_waits_recorded_gaps_and_loops() {
    let events = vec![ev(100, 30, 1), ev(100, 31, 1), ev(250, 30, 0)];
    let (steps, notes) = drive(2, &events, 100);
    let round = vec![
        PlayStep::Poll,
        PlayStep::Wait(100),
        PlayStep::Emit(0),
        PlayStep::Poll,
        PlayStep::Emit(1),
        PlayStep::Poll,
        PlayStep::Wait(150),
        PlayStep::Emit(2),
        PlayStep::RoundDone,
    ];
    let mut expected = round.clone();
    expected.push(PlayStep::Gap);
    expected.extend(round);
    expected.push(PlayStep::Finish);
    assert_eq!(steps, expected);
    assert_eq!(notes, vec!["Loop 1/2".to_string(), "Loop 2/2".to_string()]);
}

#[test]
fn unlimited_playback_keeps_going_until_stopped() {
    let events = vec![ev(0, 30, 1)];
    let (steps, notes) = drive(0, &events, 40);
    assert_eq!(steps.len(), 40);
    assert!(!steps.contains(&PlayStep::Finish));
    assert_eq!(notes[0], "Loop 1 (infinite)");
    assert_eq!(notes[2], "Loop 3 (infinite)");
}

#[test]
fn stop_finishes_at_any_point() {
    let events = vec![ev(10, 30, 1), ev(20, 30, 0)];
    let mut p = Playback::start(5, &events).unwrap();
    assert_eq!(p.next_step(&events, true), PlayStep::Finish);
    p.polled(&events);
    assert_eq!(p.phase, PlayPhase::Polled);
    assert_eq!(p.next_step(&events, false), PlayStep::Wait(10));
    assert_eq!(p.next_step(&events, true), PlayStep::Finish);
    assert!(Playback::start(1, &Vec::new()).is_none());
}

#[test]
fn earlier_timestamp_means_no_wait() {
    let events = vec![ev(500, 30, 1), ev(200, 30, 0)];
    let (steps, _) = drive(1, &events, 100);
    assert_eq!(
        steps,
        vec![
            PlayStep::Poll,
            PlayStep::Wait(500),
            PlayStep::Emit(0),
            PlayStep::Poll,
            PlayStep::Emit(1),
            PlayStep::RoundDone,
            PlayStep::Finish,
        ]
    );
}

#[test]
fn finish_notices() {
    assert_eq!(finish_notice(false, 0), "Playback finished");
    assert_eq!(finish_notice(false, 3), "Playback finished");
    assert_eq!(finish_notice(true, 0), "Playback stopped");
    assert_eq!(finish_notice(true, 2), "Playback stopped (2 keys released)");
}
