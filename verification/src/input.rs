//! The input capture and replay log.
//!
//! Every decoded input event is appended to the live input log for the
//! current session. While recording is active each event is also stamped
//! with the milliseconds elapsed since recording started and appended to a
//! replayable timeline; a recorded session bundles that timeline with the
//! snapshot of the simulation state taken at recording start. The recorder's
//! job is to preserve exact ordering and exact relative timing — determinism
//! of a replay is the loaded module's responsibility.

use vstd::prelude::*;
use crate::state::SimulationState;

verus! {

/// One decoded input occurrence, immutable once created: which key, whether
/// it was pressed or released, and the modifier state.
#[derive(Clone, Copy, Debug, PartialEq, Eq, Structural)]
pub struct InputEvent {
    /// Key identity, in the loaded module's own key-code space.
    pub key: u32,
    /// True on press, false on release.
    pub pressed: bool,
    /// Modifier-key state at the time of the event.
    pub modifiers: u32,
}

/// One entry of the replayable timeline: milliseconds elapsed since the
/// recording started, and the event itself.
#[derive(Clone, Copy, Debug, PartialEq, Eq, Structural)]
pub struct RecordedEntry {
    /// Milliseconds since the recording origin, non-decreasing along the log.
    pub elapsed_ms: u64,
    /// The recorded event.
    pub event: InputEvent,
}

/// A replayable bundle: the simulation state as it was when recording
/// started, and the timestamped events recorded after that instant.
#[derive(Clone, Debug, PartialEq, Eq)]
pub struct RecordedSession {
    /// Snapshot of the simulation state at recording start.
    pub game_state_at_start: SimulationState,
    /// The recorded timeline, in the exact order the events arrived.
    pub recorded_input: Vec<RecordedEntry>,
}

/// Milliseconds elapsed since the recording origin at a clock reading of
/// `now_ms`: a reading from before the origin counts as no elapsed time.
pub open spec fn spec_elapsed_since(origin_ms: u64, now_ms: u64) -> u64 {
    if now_ms >= origin_ms {
        (now_ms - origin_ms) as u64
    } else {
        0u64
    }
}

/// The timestamp under which an event `elapsed_ms` after the origin is
/// recorded: the elapsed time itself, except that a value behind the latest
/// recorded entry is clamped up to it, so the timeline never runs backward.
pub open spec fn spec_record_stamp(recorded: Seq<RecordedEntry>, elapsed_ms: u64) -> u64 {
    if recorded.len() > 0 && elapsed_ms < recorded.last().elapsed_ms {
        recorded.last().elapsed_ms
    } else {
        elapsed_ms
    }
}

/// The ordered, timestamped input log with start/stop recording semantics.
#[derive(Clone, Debug, PartialEq, Eq)]
pub struct InputRecorder {
    /// The live input log: every decoded event of the session, in order.
    pub input_log: Vec<InputEvent>,
    /// The replayable timeline built while recording is active.
    pub recorded_input: Vec<RecordedEntry>,
    /// Whether recording is active.
    pub recording: bool,
    /// The clock reading at which recording started; 0 while not recording.
    pub recording_origin_ms: u64,
}

impl InputRecorder {
    /// Recorded timestamps never decrease from one entry to the next.
    pub open spec fn wf(self) -> bool {
        forall|i: int|
            0 <= i < self.recorded_input@.len() - 1 ==> (#[trigger] self.recorded_input@[i]).elapsed_ms
                <= self.recorded_input@[i + 1].elapsed_ms
    }

    /// A fresh recorder: empty logs, recording off.
    pub fn new() -> (r: InputRecorder)
        ensures
            r.wf(),
            r.input_log@ == Seq::<InputEvent>::empty(),
            r.recorded_input@ == Seq::<RecordedEntry>::empty(),
            !r.recording,
            r.recording_origin_ms == 0,
    {
        InputRecorder {
            input_log: Vec::new(),
            recorded_input: Vec::new(),
            recording: false,
            recording_origin_ms: 0,
        }
    }

    /// Start recording: the clock reading `now_ms` becomes the recording
    /// origin, and any previously recorded timeline is discarded, so the new
    /// session is independent of whatever arrived before this call. The live
    /// input log is untouched.
    pub fn start_recording(&mut self, now_ms: u64)
        ensures
            final(self).wf(),
            final(self).recording,
            final(self).recording_origin_ms == now_ms,
            final(self).recorded_input@ == Seq::<RecordedEntry>::empty(),
            final(self).input_log == old(self).input_log,
    {
        self.recorded_input = Vec::new();
        self.recording = true;
        self.recording_origin_ms = now_ms;
    }

    /// Stop recording and clear the recording origin: the recorded timeline
    /// stays available for export and replay, and the live input log is
    /// untouched.
    pub fn stop_recording(&mut self)
        requires
            old(self).wf(),
        ensures
            final(self).wf(),
            !final(self).recording,
            final(self).recording_origin_ms == 0,
            final(self).recorded_input == old(self).recorded_input,
            final(self).input_log == old(self).input_log,
    {
        self.recording = false;
        self.recording_origin_ms = 0;
    }

    /// Take one decoded event at clock reading `now_ms`. The event is always
    /// appended to the live input log, whatever the recording state; it
    /// enters the recorded timeline exactly when recording is active,
    /// stamped with the time elapsed since the recording origin — clamped so
    /// that the timeline never runs backward even against a misbehaving
    /// clock reading.
    pub fn on_input(&mut self, event: InputEvent, now_ms: u64)
        requires
            old(self).wf(),
        ensures
            final(self).wf(),
            final(self).input_log@ == old(self).input_log@.push(event),
            final(self).recording == old(self).recording,
            final(self).recording_origin_ms == old(self).recording_origin_ms,
            !old(self).recording ==> final(self).recorded_input == old(self).recorded_input,
            old(self).recording ==> final(self).recorded_input@ == old(self).recorded_input@.push(
                RecordedEntry {
                    elapsed_ms: spec_record_stamp(
                        old(self).recorded_input@,
                        spec_elapsed_since(old(self).recording_origin_ms, now_ms),
                    ),
                    event,
                },
            ),
    {
        self.input_log.push(event);
        if self.recording {
            let elapsed: u64 = if now_ms >= self.recording_origin_ms {
                now_ms - self.recording_origin_ms
            } else {
                0
            };
            let n = self.recorded_input.len();
            let stamp: u64 = if n > 0 && elapsed < self.recorded_input[n - 1].elapsed_ms {
                self.recorded_input[n - 1].elapsed_ms
            } else {
                elapsed
            };
            self.recorded_input.push(RecordedEntry { elapsed_ms: stamp, event });
        }
    }

    /// Bundle a point-in-time snapshot of the simulation state with the
    /// recorded timeline, exactly as recorded, for persistence or replay.
    pub fn export_session(&self, game_state_at_start: SimulationState) -> (r: RecordedSession)
        ensures
            r.game_state_at_start == game_state_at_start,
            r.recorded_input@ == self.recorded_input@,
    {
        RecordedSession { game_state_at_start, recorded_input: self.recorded_input.clone() }
    }
}

/// The terminal simulation state of replaying a timeline from an initial
/// state under a step function — the model of a deterministic module's
/// per-event update as a pure function of state and timestamped event.
pub open spec fn spec_replay(
    init: SimulationState,
    entries: Seq<RecordedEntry>,
    step: spec_fn(SimulationState, RecordedEntry) -> SimulationState,
) -> SimulationState
    decreases entries.len(),
{
    if entries.len() == 0 {
        init
    } else {
        spec_replay(step(init, entries.first()), entries.drop_first(), step)
    }
}

/// Law: in a well-formed recorder the recorded timestamps are non-decreasing
/// across the whole timeline, not only between neighbours.
pub proof fn lemma_recorded_timestamps_monotone(r: InputRecorder)
    requires
        r.wf(),
    ensures
        forall|i: int, j: int|
            0 <= i <= j < r.recorded_input@.len() ==> (#[trigger] r.recorded_input@[i]).elapsed_ms
                <= (#[trigger] r.recorded_input@[j]).elapsed_ms,
{
    assert forall|i: int, j: int|
        0 <= i <= j < r.recorded_input@.len() implies (#[trigger] r.recorded_input@[i]).elapsed_ms
        <= (#[trigger] r.recorded_input@[j]).elapsed_ms by {
        lemma_stamps_monotone_between(r.recorded_input@, i, j);
    }
}

proof fn lemma_stamps_monotone_between(s: Seq<RecordedEntry>, i: int, j: int)
    requires
        forall|k: int|
            0 <= k < s.len() - 1 ==> (#[trigger] s[k]).elapsed_ms <= s[k + 1].elapsed_ms,
        0 <= i <= j < s.len(),
    ensures
        s[i].elapsed_ms <= s[j].elapsed_ms,
    decreases j - i,
{
    if i < j {
        lemma_stamps_monotone_between(s, i, j - 1);
        assert(s[j - 1].elapsed_ms <= s[j].elapsed_ms);
    }
}

/// Law: replaying an exported session — its snapshot and its timeline, in
/// recorded order — under any deterministic step function reproduces exactly
/// the terminal state that the original timeline produces from the original
/// snapshot. The export preserves both the snapshot and the exact (timestamp,
/// event) sequence, so the two replays coincide.
pub proof fn lemma_session_replay_round_trip(
    session: RecordedSession,
    original_entries: Seq<RecordedEntry>,
    snapshot: SimulationState,
    step: spec_fn(SimulationState, RecordedEntry) -> SimulationState,
)
    requires
        session.game_state_at_start == snapshot,
        session.recorded_input@ == original_entries,
    ensures
        spec_replay(session.game_state_at_start, session.recorded_input@, step) == spec_replay(
            snapshot,
            original_entries,
            step,
        ),
{
}

} // verus!
