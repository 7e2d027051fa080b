//! The mutually exclusive container for the simulation state and the input
//! recorder, shared between the host thread, the auxiliary inspector thread,
//! and the loaded module's synchronous calls.
//!
//! Each resource sits behind its own verified lock (vstd's reader-writer
//! lock, always acquired for writing, so acquisitions are strictly
//! serialized: one accessor at a time, readers included). Every operation
//! here is a scoped acquisition — take the lock, perform one read or one
//! verified mutation, release on every path — and acquisitions never nest,
//! so no lock ordering can deadlock. Each lock carries the resource's
//! well-formedness as its invariant: whatever is taken out of a lock is well
//! formed, and nothing malformed can be put back in.
//!
//! The container itself holds no reference counting: the host process shares
//! one `SharedStateBus` across its threads (and hands it to the module's
//! entry points) behind a reference-counted pointer of its own.

use vstd::prelude::*;
use vstd::rwlock::{RwLock, RwLockPredicate};
use crate::input::{InputEvent, InputRecorder, RecordedSession};
use crate::state::SimulationState;
use crate::timing::TimingInfo;

verus! {

/// The state lock's invariant: the guarded simulation state is well formed.
pub struct StateInv;

impl RwLockPredicate<SimulationState> for StateInv {
    open spec fn inv(self, s: SimulationState) -> bool {
        s.wf()
    }
}

/// The recorder lock's invariant: the guarded recorder is well formed.
pub struct RecorderInv;

impl RwLockPredicate<InputRecorder> for RecorderInv {
    open spec fn inv(self, r: InputRecorder) -> bool {
        r.wf()
    }
}

/// Guarded ownership of the simulation state and the input recorder.
pub struct SharedStateBus {
    state: RwLock<SimulationState, StateInv>,
    recorder: RwLock<InputRecorder, RecorderInv>,
}

impl SharedStateBus {
    /// Construct the process's single bus around the startup state and a
    /// fresh recorder.
    pub fn new(initial: SimulationState, recorder: InputRecorder) -> (r: SharedStateBus)
        requires
            initial.wf(),
            recorder.wf(),
    {
        SharedStateBus {
            state: RwLock::new(initial, Ghost(StateInv)),
            recorder: RwLock::new(recorder, Ghost(RecorderInv)),
        }
    }

    /// A copy of the simulation state as it is at this instant; well formed,
    /// like everything the state lock guards.
    pub fn read_state(&self) -> (r: SimulationState)
        ensures
            r.wf(),
    {
        let (val, handle) = self.state.acquire_write();
        let copy = val.clone();
        handle.release_write(val);
        copy
    }

    /// Publish a fresh timing snapshot into the shared state.
    pub fn publish_timing(&self, timing_info: TimingInfo) {
        let (mut val, handle) = self.state.acquire_write();
        val.set_timing_info(timing_info);
        handle.release_write(val);
    }

    /// Record the window geometry in the shared state.
    pub fn publish_window(&self, window: crate::state::Window) {
        let (mut val, handle) = self.state.acquire_write();
        val.set_window(window);
        handle.release_write(val);
    }

    /// Write the diagnostic text line into its slot of the shared state,
    /// when the state has that slot; reports whether it did.
    pub fn publish_diagnostic_text(&self, text: String) -> (r: bool) {
        let (mut val, handle) = self.state.acquire_write();
        let written: bool = if val.texts.len() > 1 {
            val.set_text(1, Some(text));
            true
        } else {
            false
        };
        handle.release_write(val);
        written
    }

    /// Mirror the recording-active flag into the shared state for display.
    pub fn publish_recording_flag(&self, recording: bool) {
        let (mut val, handle) = self.state.acquire_write();
        val.set_recording(recording);
        handle.release_write(val);
    }

    /// Feed one decoded event at clock reading `now_ms` to the guarded
    /// recorder: `InputRecorder::on_input` under the lock.
    pub fn record_event(&self, event: InputEvent, now_ms: u64) {
        let (mut val, handle) = self.recorder.acquire_write();
        val.on_input(event, now_ms);
        handle.release_write(val);
    }

    /// Start recording at clock reading `now_ms`:
    /// `InputRecorder::start_recording` under the lock.
    pub fn start_recording(&self, now_ms: u64) {
        let (mut val, handle) = self.recorder.acquire_write();
        val.start_recording(now_ms);
        handle.release_write(val);
    }

    /// Stop recording: `InputRecorder::stop_recording` under the lock.
    pub fn stop_recording(&self) {
        let (mut val, handle) = self.recorder.acquire_write();
        val.stop_recording();
        handle.release_write(val);
    }

    /// Bundle the recorded timeline with a snapshot of the simulation state:
    /// `InputRecorder::export_session` under the lock.
    pub fn export_session(&self, game_state_at_start: SimulationState) -> (r: RecordedSession)
        ensures
            r.game_state_at_start == game_state_at_start,
    {
        let (val, handle) = self.recorder.acquire_write();
        let session = val.export_session(game_state_at_start);
        handle.release_write(val);
        session
    }
}

} // verus!
