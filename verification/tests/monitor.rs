//! Scenario tests for the tick state machine and the commit step.

use gdqbot::error::ExitReason;
use gdqbot::state::{MonitorState, StreamObservation, StreamRecord};
use gdqbot::state::observation_of_records;
use gdqbot::tick::{commit_tick, tick, Verdict};

fn online(game: &str, title: &str) -> StreamObservation {
    StreamObservation::Online { game: game.to_string(), title: title.to_string() }
}

#[test]
fn three_offline_ticks_terminate_at_threshold() {
    let mut state = MonitorState::new(3);
    let out1 = tick(&state, StreamObservation::Offline);
    assert_eq!(out1.verdict, Verdict::Continue);
    assert!(out1.effect.is_none());
    assert_eq!(out1.next.consecutive_offline_count, 1);
    state = out1.next;
    let out2 = tick(&state, StreamObservation::Offline);
    assert_eq!(out2.verdict, Verdict::Continue);
    assert!(out2.effect.is_none());
    assert_eq!(out2.next.consecutive_offline_count, 2);
    state = out2.next;
    let out3 = tick(&state, StreamObservation::Offline);
    assert_eq!(out3.verdict, Verdict::Terminate(ExitReason::StreamOffline(3)));
    assert!(out3.effect.is_none());
    assert_eq!(out3.next.consecutive_offline_count, 3);
}

#[test]
fn offline_tick_keeps_game_and_increments_count() {
    let state = MonitorState {
        current_game: "Celeste".to_string(),
        consecutive_offline_count: 1,
        offline_threshold: 5,
    };
    let out = tick(&state, StreamObservation::Offline);
    assert_eq!(out.next.current_game, "Celeste");
    assert_eq!(out.next.consecutive_offline_count, 2);
    assert_eq!(out.next.offline_threshold, 5);
    assert_eq!(out.verdict, Verdict::Continue);
    assert!(out.effect.is_none());
}

#[test]
fn same_game_online_emits_nothing() {
    let state = MonitorState {
        current_game: "Chrono Trigger".to_string(),
        consecutive_offline_count: 0,
        offline_threshold: 3,
    };
    let out = tick(&state, online("Chrono Trigger", "GDQ 2024"));
    assert!(out.effect.is_none());
    assert_eq!(out.verdict, Verdict::Continue);
    assert_eq!(out.next.current_game, "Chrono Trigger");
    assert_eq!(out.next.consecutive_offline_count, 0);
}

#[test]
fn rerun_title_terminates_without_effects() {
    let state = MonitorState::new(3);
    let out = tick(&state, online("Celeste", "Any% RERUN"));
    assert_eq!(
        out.verdict,
        Verdict::Terminate(ExitReason::StreamRerun("Any% RERUN".to_string()))
    );
    assert!(out.effect.is_none());
    assert_eq!(out.next.current_game, "");
}

#[test]
fn rerun_takes_priority_over_game_change() {
    let state = MonitorState {
        current_game: "Celeste".to_string(),
        consecutive_offline_count: 2,
        offline_threshold: 3,
    };
    let out = tick(&state, online("Hollow Knight", "All bosses ReRun"));
    assert_eq!(
        out.verdict,
        Verdict::Terminate(ExitReason::StreamRerun("All bosses ReRun".to_string()))
    );
    assert!(out.effect.is_none());
    assert_eq!(out.next.current_game, "Celeste");
    assert_eq!(out.next.consecutive_offline_count, 0);
}

#[test]
fn game_change_emits_one_effect_and_commits() {
    let state = MonitorState::new(3);
    let out = tick(&state, online("Celeste", "Any% run"));
    let effect = out.effect.clone().expect("a change effect");
    assert_eq!(effect.game, "Celeste");
    assert_eq!(effect.title, "Any% run");
    assert_eq!(out.next.current_game, "Celeste");
    assert_eq!(out.verdict, Verdict::Continue);
}

#[test]
fn online_resets_offline_count() {
    let state = MonitorState {
        current_game: "Celeste".to_string(),
        consecutive_offline_count: 2,
        offline_threshold: 3,
    };
    let out = tick(&state, online("Celeste", "still going"));
    assert_eq!(out.next.consecutive_offline_count, 0);
    assert!(out.effect.is_none());
}

#[test]
fn repeated_observation_emits_effect_only_once() {
    let mut state = MonitorState::new(3);
    let out1 = tick(&state, online("Celeste", "Any% run"));
    assert!(out1.effect.is_some());
    state = out1.next;
    let out2 = tick(&state, online("Celeste", "Any% run"));
    assert!(out2.effect.is_none());
    assert_eq!(out2.next, state);
}

#[test]
fn failed_persist_does_not_block_commit() {
    let mut state = MonitorState::new(3);
    let out = tick(&state, online("Celeste", "Any% run"));
    assert!(out.effect.is_some());
    let expected_next = out.next.clone();
    let verdict = commit_tick(&mut state, out, false, true);
    assert_eq!(verdict, Verdict::Continue);
    assert_eq!(state, expected_next);
    assert_eq!(state.current_game, "Celeste");
}

#[test]
fn failed_notify_does_not_block_commit() {
    let mut state = MonitorState::new(3);
    let out = tick(&state, online("Celeste", "Any% run"));
    let expected_next = out.next.clone();
    let verdict = commit_tick(&mut state, out, true, false);
    assert_eq!(verdict, Verdict::Continue);
    assert_eq!(state, expected_next);
}

#[test]
fn seeding_takes_the_stored_game() {
    let mut state = MonitorState::new(3);
    state.seed(Some("Super Metroid".to_string()));
    assert_eq!(state.current_game, "Super Metroid");
    assert_eq!(state.consecutive_offline_count, 0);
}

#[test]
fn seeding_without_a_stored_game_keeps_the_default() {
    let mut state = MonitorState::new(3);
    state.seed(None);
    assert_eq!(state.current_game, "");
}

#[test]
fn no_records_means_offline() {
    let obs = observation_of_records(Vec::new());
    assert_eq!(obs, StreamObservation::Offline);
}

#[test]
fn first_record_speaks_for_the_channel() {
    let records = vec![
        StreamRecord { game: "Celeste".to_string(), title: "Any% run".to_string() },
        StreamRecord { game: "Quake".to_string(), title: "later".to_string() },
    ];
    let obs = observation_of_records(records);
    assert_eq!(
        obs,
        StreamObservation::Online { game: "Celeste".to_string(), title: "Any% run".to_string() }
    );
}
