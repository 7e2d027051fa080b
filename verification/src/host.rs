//! The host loop's per-frame decisions.
//!
//! The loop itself — pumping platform events, calling into the loaded
//! module, painting and presenting the surface — is platform work done by
//! the host process. Every decision along the way is taken here: what a
//! platform event does to the run flag and to the input logs, which window
//! emphasis a focus change asks for, whether this frame publishes the
//! diagnostic line, and how the startup/shutdown phases advance.

use vstd::prelude::*;
use crate::input::{InputEvent, InputRecorder, RecordedEntry};
use crate::input::{spec_elapsed_since, spec_record_stamp};
use crate::state::SimulationState;
use crate::text::{
    spec_decimal, spec_decimal_signed, spec_two_digits, to_decimal, to_decimal_signed,
    to_two_digits,
};
use crate::timing::TimingInfo;

verus! {

/// Bytes per kilobyte of the memory-budget configuration.
pub const BYTES_PER_KILOBYTE: usize = 1024;

/// The diagnostic text line is rebuilt only every this-many frames: string
/// formatting, and the lock it needs, are not free and need not happen every
/// frame.
pub const TELEMETRY_DECIMATION: u64 = 10;

/// A memory-budget hint given in kilobytes, as bytes.
pub fn kilobytes(v: usize) -> (r: usize)
    requires
        v * 1024 <= usize::MAX,
    ensures
        r == v * 1024,
{
    v * BYTES_PER_KILOBYTE
}

/// A memory-budget hint given in megabytes, as bytes.
pub fn megabytes(v: usize) -> (r: usize)
    requires
        v * 1024 * 1024 <= usize::MAX,
    ensures
        r == v * 1024 * 1024,
{
    kilobytes(v) * BYTES_PER_KILOBYTE
}

/// Parsed startup configuration.
#[derive(Clone, Debug, PartialEq, Eq)]
pub struct HostConfig {
    /// Disable frame-rate pacing shortcuts, for debugging.
    pub slow: bool,
    /// Start in fullscreen.
    pub fullscreen: bool,
    /// Window width in pixels.
    pub width: i32,
    /// Window height in pixels.
    pub height: i32,
    /// Permanent memory budget hint, in megabytes.
    pub permanent_memory_size: usize,
    /// Transient memory budget hint, in kilobytes.
    pub transient_memory_size: usize,
    /// Filesystem path of the module artifact to load.
    pub game_dll: String,
}

/// The host's own run state: the run flag observed at the top of every loop
/// iteration, the startup configuration, and the current timing snapshot.
/// The window and render-surface handles stay with the host process.
#[derive(Clone, Debug, PartialEq, Eq)]
pub struct Platform {
    /// True while the loop should keep running.
    pub running: bool,
    /// The parsed startup configuration.
    pub cli: HostConfig,
    /// The current timing snapshot.
    pub timing_info: TimingInfo,
}

/// One platform event after the narrow decode boundary: quit requests and
/// focus changes are classified by the host process, key events arrive
/// already decoded by the loaded module's `decide_input` entry point.
#[derive(Clone, Copy, Debug, PartialEq, Eq, Structural)]
pub enum PlatformEvent {
    /// The platform asked the process to quit.
    Quit,
    /// A key went down or up; the module decoded it into an input event.
    Key(InputEvent),
    /// The host window gained focus.
    FocusGained,
    /// The host window lost focus.
    FocusLost,
    /// Anything else; ignored by the host.
    Other,
}

/// The window-emphasis side effect a focus change asks of the platform
/// layer. Applying it is best-effort: a failure is logged, never fatal.
#[derive(Clone, Copy, Debug, PartialEq, Eq, Structural)]
pub enum FocusAction {
    /// Full window emphasis: the window regained focus.
    Emphasize,
    /// Dimmed window: the window lost focus.
    Dim,
    /// No window change is called for.
    NoChange,
}

/// Fold one platform event into the host state: a quit request clears the
/// run flag, a decoded key event enters the input logs (always the live log,
/// and the recorded timeline exactly while recording), and a focus change
/// asks for a window-emphasis action. Nothing else is touched.
pub fn handle_platform_event(
    platform: &mut Platform,
    recorder: &mut InputRecorder,
    event: PlatformEvent,
    now_ms: u64,
) -> (r: FocusAction)
    requires
        old(recorder).wf(),
    ensures
        final(recorder).wf(),
        event == PlatformEvent::Quit ==> !final(platform).running,
        event != PlatformEvent::Quit ==> final(platform).running == old(platform).running,
        final(platform).cli == old(platform).cli,
        final(platform).timing_info == old(platform).timing_info,
        (match event {
            PlatformEvent::Key(e) => {
                &&& final(recorder).input_log@ == old(recorder).input_log@.push(e)
                &&& final(recorder).recording == old(recorder).recording
                &&& final(recorder).recording_origin_ms == old(recorder).recording_origin_ms
                &&& (!old(recorder).recording ==> final(recorder).recorded_input == old(
                    recorder,
                ).recorded_input)
                &&& (old(recorder).recording ==> final(recorder).recorded_input@ == old(
                    recorder,
                ).recorded_input@.push(
                    RecordedEntry {
                        elapsed_ms: spec_record_stamp(
                            old(recorder).recorded_input@,
                            spec_elapsed_since(old(recorder).recording_origin_ms, now_ms),
                        ),
                        event: e,
                    },
                ))
            },
            _ => *final(recorder) == *old(recorder),
        }),
        r == (match event {
            PlatformEvent::FocusGained => FocusAction::Emphasize,
            PlatformEvent::FocusLost => FocusAction::Dim,
            _ => FocusAction::NoChange,
        }),
{
    match event {
        PlatformEvent::Quit => {
            platform.running = false;
            FocusAction::NoChange
        },
        PlatformEvent::Key(e) => {
            recorder.on_input(e, now_ms);
            FocusAction::NoChange
        },
        PlatformEvent::FocusGained => FocusAction::Emphasize,
        PlatformEvent::FocusLost => FocusAction::Dim,
        PlatformEvent::Other => FocusAction::NoChange,
    }
}

/// Whether this frame rebuilds the diagnostic text line: every
/// `TELEMETRY_DECIMATION`-th iteration of the loop counter.
pub fn should_publish_diagnostics(loop_counter: u64) -> (r: bool)
    ensures
        r == (loop_counter % TELEMETRY_DECIMATION == 0),
{
    loop_counter % TELEMETRY_DECIMATION == 0
}

/// The values of one diagnostic line: the latest frame's duration and rates,
/// and a sample of the simulation state.
#[derive(Clone, Copy, Debug, PartialEq, Eq, Structural)]
pub struct DiagnosticSample {
    /// Microseconds the latest measured frame took.
    pub frame_microseconds: u64,
    /// Whole frames per second the latest frame extrapolates to.
    pub fps: u64,
    /// Whole megacycles the latest frame spent.
    pub megacycles_per_frame: u64,
    /// The first entity's z position, when there is one.
    pub sample_z: Option<i64>,
}

/// Collect the values of the diagnostic line from the timing snapshot and
/// the simulation state. The host process formats and publishes them.
pub fn diagnostic_sample(timing_info: &TimingInfo, sim: &SimulationState) -> (r: DiagnosticSample)
    ensures
        r.frame_microseconds == timing_info.elapsed_microseconds,
        r.fps == timing_info.fps,
        r.megacycles_per_frame == timing_info.megacycles_per_frame,
        sim.entities@.len() == 0 ==> r.sample_z is None,
        sim.entities@.len() > 0 ==> r.sample_z == Some(sim.entities@[0].position.z),
{
    DiagnosticSample {
        frame_microseconds: timing_info.elapsed_microseconds,
        fps: timing_info.fps,
        megacycles_per_frame: timing_info.megacycles_per_frame,
        sample_z: sim.first_entity_z(),
    }
}

/// The text of one diagnostic line: frame time in milliseconds with two
/// decimals, whole frames per second, whole megacycles per frame, and the
/// sampled z position (a dash while there is no entity to sample).
pub open spec fn spec_diagnostic_line(s: DiagnosticSample) -> Seq<char> {
    spec_decimal((s.frame_microseconds / 1000) as int) + "."@ + spec_two_digits(
        ((s.frame_microseconds % 1000) / 10) as int,
    ) + "ms/f,  "@ + spec_decimal(s.fps as int) + "f/s,  "@ + spec_decimal(
        s.megacycles_per_frame as int,
    ) + "mc/f, z="@ + (match s.sample_z {
        Some(z) => spec_decimal_signed(z as int),
        None => "-"@,
    })
}

/// Render the diagnostic line that is published into the shared state every
/// `TELEMETRY_DECIMATION`-th frame.
pub fn diagnostic_line(sample: &DiagnosticSample) -> (r: String)
    ensures
        r@ == spec_diagnostic_line(*sample),
{
    let mut line = to_decimal(sample.frame_microseconds / 1000);
    line.append(".");
    let fraction = to_two_digits(sample.frame_microseconds % 1000 / 10);
    line.append(fraction.as_str());
    line.append("ms/f,  ");
    let fps = to_decimal(sample.fps);
    line.append(fps.as_str());
    line.append("f/s,  ");
    let megacycles = to_decimal(sample.megacycles_per_frame);
    line.append(megacycles.as_str());
    line.append("mc/f, z=");
    match sample.sample_z {
        Some(z) => {
            let z_text = to_decimal_signed(z);
            line.append(z_text.as_str());
        },
        None => {
            line.append("-");
        },
    }
    line
}

/// The phases of one run of the host.
#[derive(Clone, Copy, Debug, PartialEq, Eq, Structural)]
pub enum HostPhase {
    /// Acquiring the window and surface, loading the first module.
    Starting,
    /// Looping while the run flag holds.
    Running,
    /// A quit was requested; the loop exits.
    Stopping,
    /// The auxiliary thread is joined and the platform shut down.
    Stopped,
}

/// Advance the run's phase: startup enters the loop, the loop keeps running
/// exactly while the run flag holds, and shutdown is final.
pub fn next_phase(phase: HostPhase, running: bool) -> (r: HostPhase)
    ensures
        phase == HostPhase::Starting ==> r == HostPhase::Running,
        phase == HostPhase::Running && running ==> r == HostPhase::Running,
        phase == HostPhase::Running && !running ==> r == HostPhase::Stopping,
        phase == HostPhase::Stopping ==> r == HostPhase::Stopped,
        phase == HostPhase::Stopped ==> r == HostPhase::Stopped,
{
    match phase {
        HostPhase::Starting => HostPhase::Running,
        HostPhase::Running => if running {
            HostPhase::Running
        } else {
            HostPhase::Stopping
        },
        HostPhase::Stopping => HostPhase::Stopped,
        HostPhase::Stopped => HostPhase::Stopped,
    }
}

} // verus!
