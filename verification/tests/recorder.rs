use hothost::input::{InputEvent, InputRecorder, RecordedEntry};
use hothost::state::{SimulationState, Window};
use hothost::timing::TimingInfo;

fn key_down(key: u32) -> InputEvent {
    InputEvent { key, pressed: true, modifiers: 0 }
}

fn fresh_state() -> SimulationState {
    SimulationState::new(Window { width: 1024, height: 768 }, TimingInfo::new(None, 1, false))
}

#[test]
fn two_key_downs_record_exactly_their_timeline() {
    let mut recorder = InputRecorder::new();
    // Input received before recording starts must not leak into the session.
    recorder.on_input(key_down(7), 3);
    recorder.start_recording(1000);
    recorder.on_input(key_down(1), 1010);
    recorder.on_input(key_down(2), 1025);
    recorder.stop_recording();
    let session = recorder.export_session(fresh_state());
    assert_eq!(
        session.recorded_input,
        vec![
            RecordedEntry { elapsed_ms: 10, event: key_down(1) },
            RecordedEntry { elapsed_ms: 25, event: key_down(2) },
        ]
    );
}

#[test]
fn on_input_always_appends_to_the_live_log() {
    let mut recorder = InputRecorder::new();
    recorder.on_input(key_down(1), 0);
    assert_eq!(recorder.input_log, vec![key_down(1)]);
    assert!(recorder.recorded_input.is_empty());
    recorder.start_recording(0);
    recorder.on_input(key_down(2), 5);
    assert_eq!(recorder.input_log, vec![key_down(1), key_down(2)]);
    recorder.stop_recording();
    recorder.on_input(key_down(3), 9);
    assert_eq!(recorder.input_log, vec![key_down(1), key_down(2), key_down(3)]);
    // Nothing entered the timeline while recording was inactive.
    assert_eq!(recorder.recorded_input.len(), 1);
}

#[test]
fn stop_recording_keeps_the_timeline() {
    let mut recorder = InputRecorder::new();
    recorder.start_recording(0);
    recorder.on_input(key_down(1), 4);
    recorder.stop_recording();
    assert!(!recorder.recording);
    assert_eq!(recorder.recorded_input, vec![RecordedEntry { elapsed_ms: 4, event: key_down(1) }]);
}

#[test]
fn restarting_recording_discards_the_previous_timeline() {
    let mut recorder = InputRecorder::new();
    recorder.start_recording(0);
    recorder.on_input(key_down(1), 4);
    recorder.stop_recording();
    recorder.start_recording(10);
    assert!(recorder.recorded_input.is_empty());
    recorder.on_input(key_down(2), 12);
    assert_eq!(recorder.recorded_input, vec![RecordedEntry { elapsed_ms: 2, event: key_down(2) }]);
}

#[test]
fn timestamps_never_run_backward() {
    let mut recorder = InputRecorder::new();
    recorder.start_recording(0);
    recorder.on_input(key_down(1), 10);
    // A clock reading behind the latest entry is clamped up to it.
    recorder.on_input(key_down(2), 7);
    recorder.on_input(key_down(3), 12);
    let stamps: Vec<u64> = recorder.recorded_input.iter().map(|e| e.elapsed_ms).collect();
    assert_eq!(stamps, vec![10, 10, 12]);
}

#[test]
fn replaying_an_exported_session_reproduces_the_run() {
    // A deterministic stand-in for a module's update: fold each timestamped
    // event into the state's window width.
    fn step(mut state: SimulationState, elapsed_ms: u64, event: InputEvent) -> SimulationState {
        state.window.width = state.window.width.wrapping_mul(31).wrapping_add(elapsed_ms).wrapping_add(event.key as u64);
        state
    }
    let mut recorder = InputRecorder::new();
    recorder.start_recording(0);
    let snapshot = fresh_state();
    recorder.on_input(key_down(4), 10);
    recorder.on_input(key_down(9), 25);
    recorder.stop_recording();

    // The original run's terminal state, folded from the captured timeline.
    let mut original = snapshot.clone();
    for entry in &recorder.recorded_input {
        original = step(original, entry.elapsed_ms, entry.event);
    }

    // The same fold over the exported session, from a fresh snapshot copy.
    let session = recorder.export_session(snapshot.clone());
    let mut replayed = session.game_state_at_start.clone();
    for entry in &session.recorded_input {
        replayed = step(replayed, entry.elapsed_ms, entry.event);
    }

    assert_eq!(replayed, original);
}

#[test]
fn export_bundles_the_snapshot_unchanged() {
    let mut recorder = InputRecorder::new();
    recorder.start_recording(0);
    recorder.on_input(key_down(1), 1);
    let snapshot = fresh_state();
    let session = recorder.export_session(snapshot.clone());
    assert_eq!(session.game_state_at_start, snapshot);
    assert_eq!(session.recorded_input, recorder.recorded_input);
}
