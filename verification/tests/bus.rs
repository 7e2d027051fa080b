use std::sync::Arc;

use hothost::bus::SharedStateBus;
use hothost::input::{InputEvent, InputRecorder, RecordedEntry};
use hothost::state::{SimulationState, Window};
use hothost::timing::TimingInfo;

fn fresh_state() -> SimulationState {
    SimulationState::new(Window { width: 640, height: 480 }, TimingInfo::new(None, 1, false))
}

fn key(k: u32) -> InputEvent {
    InputEvent { key: k, pressed: true, modifiers: 0 }
}

#[test]
fn the_bus_hands_back_the_state_it_guards() {
    let initial = fresh_state();
    let bus = SharedStateBus::new(initial.clone(), InputRecorder::new());
    assert_eq!(bus.read_state(), initial);
}

#[test]
fn published_telemetry_is_visible_through_any_handle() {
    let bus = Arc::new(SharedStateBus::new(fresh_state(), InputRecorder::new()));
    let other = Arc::clone(&bus);
    let mut timing = TimingInfo::new(Some(144), 1_000_000, true);
    timing.update(2_000_000, 5_000);
    bus.publish_timing(timing);
    assert_eq!(other.read_state().timing_info, timing);
    bus.publish_window(Window { width: 800, height: 600 });
    assert_eq!(other.read_state().window, Window { width: 800, height: 600 });
    bus.publish_recording_flag(true);
    assert!(other.read_state().recording);
}

#[test]
fn the_diagnostic_line_lands_in_its_slot() {
    let bus = SharedStateBus::new(fresh_state(), InputRecorder::new());
    assert!(bus.publish_diagnostic_text(String::from("16.2ms/f, 62f/s, 3mc/f")));
    let state = bus.read_state();
    assert_eq!(state.texts[0], None);
    assert_eq!(state.texts[1], Some(String::from("16.2ms/f, 62f/s, 3mc/f")));
}

#[test]
fn a_session_recorded_through_the_bus_round_trips() {
    let bus = SharedStateBus::new(fresh_state(), InputRecorder::new());
    bus.record_event(key(9), 1);
    bus.start_recording(100);
    bus.record_event(key(1), 110);
    bus.record_event(key(2), 125);
    bus.stop_recording();
    let snapshot = bus.read_state();
    let session = bus.export_session(snapshot.clone());
    assert_eq!(session.game_state_at_start, snapshot);
    assert_eq!(
        session.recorded_input,
        vec![
            RecordedEntry { elapsed_ms: 10, event: key(1) },
            RecordedEntry { elapsed_ms: 25, event: key(2) },
        ]
    );
}

#[test]
fn both_threads_see_one_recorder() {
    let bus = Arc::new(SharedStateBus::new(fresh_state(), InputRecorder::new()));
    let other = Arc::clone(&bus);
    bus.start_recording(0);
    other.record_event(key(3), 2);
    bus.stop_recording();
    let session = other.export_session(fresh_state());
    assert_eq!(session.recorded_input, vec![RecordedEntry { elapsed_ms: 2, event: key(3) }]);
}
