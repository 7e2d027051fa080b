//! Frame timing: per-iteration cycle and wall-clock measurement, the target
//! frame duration derived from the display refresh rate, and the pacing
//! decision that keeps the loop on that cadence.
//!
//! The platform reads (cycle counter, performance counter, refresh rate,
//! sleep granularity) are taken by the host process and handed in as plain
//! values; everything derived from them is computed here.

use vstd::prelude::*;

verus! {

/// The loop counter wraps back to 0 once it exceeds this bound; it only
/// drives an "every Nth frame" decimation and must not grow without bound.
pub const LOOP_COUNTER_WRAP: u64 = 1000;

/// Default display refresh rate assumed when the platform reports none.
pub const FALLBACK_REFRESH_HZ: i32 = 60;

/// The refresh rate (in Hz) that a timing snapshot is built from: the
/// platform's report when it is meaningful (strictly above 1), else 60.
pub open spec fn spec_refresh_hz(hint: Option<i32>) -> int {
    match hint {
        Some(h) => if h > 1 { h as int } else { 60 },
        None => 60,
    }
}

/// Target frame duration in microseconds: half the refresh period, i.e. the
/// loop targets twice the display's refresh rate as its update budget.
pub open spec fn spec_target_microseconds(hint: Option<i32>) -> int {
    500_000int / spec_refresh_hz(hint)
}

/// Cycle delta between two counter readings, clamped to a minimum of 1: a
/// counter that appears to move backward (or not at all) must never yield a
/// non-positive delta, since the delta is used as a divisor downstream.
pub open spec fn spec_cycle_delta(last: u64, current: u64) -> u64 {
    if current > last {
        (current - last) as u64
    } else {
        1u64
    }
}

/// Elapsed microseconds between two performance-counter readings at the
/// given counter frequency. A counter that moves backward counts as no
/// elapsed time, and the result saturates at `u64::MAX`.
pub open spec fn spec_elapsed_microseconds(last: i64, current: i64, frequency: i64) -> int
    recommends
        frequency >= 1,
{
    let ticks: int = if current > last {
        current - last
    } else {
        0
    };
    let micros: int = ticks * 1_000_000 / (frequency as int);
    if micros > u64::MAX {
        u64::MAX as int
    } else {
        micros
    }
}

/// Per-frame timing snapshot: the fixed counter frequency and frame target,
/// the last raw readings, and the deltas derived from them.
#[derive(Clone, Copy, Debug, PartialEq, Eq, Structural)]
pub struct TimingInfo {
    /// Performance-counter ticks per second, queried once at startup.
    pub performance_count_frequency: i64,
    /// Frame budget in microseconds, fixed at startup from the refresh rate.
    pub target_microseconds_per_frame: u64,
    /// Performance-counter reading at the start of the current iteration.
    pub last_counter: i64,
    /// Cycle-counter reading taken by the latest measurement.
    pub current_cycle_count: u64,
    /// Cycle-counter reading of the previous measurement.
    pub last_cycle_count: u64,
    /// Cycle delta of the latest iteration, always at least 1.
    pub cycles_elapsed: u64,
    /// Whole megacycles spent in the latest iteration.
    pub megacycles_per_frame: u64,
    /// Performance-counter reading taken by the latest measurement.
    pub work_counter: i64,
    /// Microseconds elapsed between `last_counter` and `work_counter`.
    pub elapsed_microseconds: u64,
    /// Whole frames per second that the latest iteration extrapolates to.
    pub fps: u64,
    /// Wrapping iteration counter used to decimate expensive telemetry.
    pub loop_counter: u64,
    /// Whether the platform sleep primitive has millisecond granularity.
    pub sleep_is_granular: bool,
}

impl TimingInfo {
    /// A snapshot is well formed when its fixed parameters are meaningful
    /// and its derived fields are consistent with the clamping rules.
    pub open spec fn wf(self) -> bool {
        &&& self.performance_count_frequency >= 1
        &&& self.cycles_elapsed >= 1
        &&& self.target_microseconds_per_frame <= 250_000
        &&& self.loop_counter <= LOOP_COUNTER_WRAP
    }

    /// Build the startup snapshot from the platform's one-time reads: the
    /// display refresh hint, the performance-counter frequency, and whether
    /// sleeping is millisecond-granular.
    pub fn new(refresh_rate_hint: Option<i32>, performance_count_frequency: i64, sleep_is_granular: bool) -> (r: TimingInfo)
        requires
            performance_count_frequency >= 1,
        ensures
            r.wf(),
            r.target_microseconds_per_frame == spec_target_microseconds(refresh_rate_hint),
            r.performance_count_frequency == performance_count_frequency,
            r.sleep_is_granular == sleep_is_granular,
            r.last_counter == 0,
            r.current_cycle_count == 0,
            r.last_cycle_count == 0,
            r.cycles_elapsed == 1,
            r.megacycles_per_frame == 0,
            r.work_counter == 0,
            r.elapsed_microseconds == 0,
            r.fps == 0,
            r.loop_counter == 0,
    {
        let refresh_hz: i32 = match refresh_rate_hint {
            Some(h) => if h > 1 { h } else { FALLBACK_REFRESH_HZ },
            None => FALLBACK_REFRESH_HZ,
        };
        assert(500_000u64 / (refresh_hz as u64) <= 250_000) by (nonlinear_arith)
            requires refresh_hz >= 2;
        TimingInfo {
            performance_count_frequency,
            target_microseconds_per_frame: 500_000u64 / (refresh_hz as u64),
            last_counter: 0,
            current_cycle_count: 0,
            last_cycle_count: 0,
            cycles_elapsed: 1,
            megacycles_per_frame: 0,
            work_counter: 0,
            elapsed_microseconds: 0,
            fps: 0,
            loop_counter: 0,
            sleep_is_granular,
        }
    }

    /// Fold fresh counter readings into the snapshot: the cycle delta
    /// (clamped to at least 1, even against a counter that ran backward),
    /// the elapsed wall time since `last_counter`, and the rates derived
    /// from both. The fixed parameters and the loop counter are untouched.
    pub fn update(&mut self, cycle_count: u64, wall_clock: i64)
        requires
            old(self).wf(),
        ensures
            final(self).wf(),
            final(self).current_cycle_count == cycle_count,
            final(self).last_cycle_count == cycle_count,
            final(self).cycles_elapsed == spec_cycle_delta(old(self).last_cycle_count, cycle_count),
            final(self).cycles_elapsed >= 1,
            final(self).megacycles_per_frame == final(self).cycles_elapsed / 1_000_000,
            final(self).work_counter == wall_clock,
            final(self).elapsed_microseconds == spec_elapsed_microseconds(
                old(self).last_counter,
                wall_clock,
                old(self).performance_count_frequency,
            ),
            final(self).fps == (if final(self).elapsed_microseconds == 0 {
                0u64
            } else {
                1_000_000u64 / final(self).elapsed_microseconds
            }),
            final(self).performance_count_frequency == old(self).performance_count_frequency,
            final(self).target_microseconds_per_frame == old(self).target_microseconds_per_frame,
            final(self).last_counter == old(self).last_counter,
            final(self).loop_counter == old(self).loop_counter,
            final(self).sleep_is_granular == old(self).sleep_is_granular,
    {
        let cycles_elapsed: u64 = if cycle_count > self.last_cycle_count {
            cycle_count - self.last_cycle_count
        } else {
            // Observed in practice: the cycle counter can appear to move
            // backward; a delta below 1 would poison the rates derived here.
            1
        };
        self.current_cycle_count = cycle_count;
        self.cycles_elapsed = cycles_elapsed;
        self.megacycles_per_frame = cycles_elapsed / 1_000_000;
        self.last_cycle_count = cycle_count;

        self.work_counter = wall_clock;
        let ticks: u64 = if wall_clock > self.last_counter {
            let wide: i128 = (wall_clock as i128) - (self.last_counter as i128);
            wide as u64
        } else {
            0
        };
        let micros_wide: u128 = (ticks as u128) * 1_000_000u128 / (self.performance_count_frequency as u128);
        let micros: u64 = if micros_wide > u64::MAX as u128 {
            u64::MAX
        } else {
            micros_wide as u64
        };
        self.elapsed_microseconds = micros;
        self.fps = if micros == 0 {
            0
        } else {
            1_000_000 / micros
        };
    }

    /// Advance the wrapping loop counter: it counts up and falls back to 0
    /// on the increment that would take it past `LOOP_COUNTER_WRAP`.
    pub fn advance_loop_counter(&mut self)
        requires
            old(self).wf(),
        ensures
            final(self).wf(),
            final(self).loop_counter == (if old(self).loop_counter >= LOOP_COUNTER_WRAP {
                0u64
            } else {
                (old(self).loop_counter + 1) as u64
            }),
            *final(self) == (TimingInfo { loop_counter: final(self).loop_counter, ..*old(self) }),
    {
        if self.loop_counter >= LOOP_COUNTER_WRAP {
            self.loop_counter = 0;
        } else {
            self.loop_counter = self.loop_counter + 1;
        }
    }

    /// Restart the elapsed-time measurement from a fresh counter reading,
    /// taken after pacing so that sleep time is not billed to the next frame.
    pub fn restart_counter(&mut self, wall_clock: i64)
        requires
            old(self).wf(),
        ensures
            final(self).wf(),
            final(self).last_counter == wall_clock,
            *final(self) == (TimingInfo { last_counter: wall_clock, ..*old(self) }),
    {
        self.last_counter = wall_clock;
    }
}

/// What the host loop should do to hold the frame on its time budget.
#[derive(Clone, Copy, Debug, PartialEq, Eq, Structural)]
pub enum PaceDecision {
    /// Sleep for this many whole milliseconds.
    SleepMillis(u64),
    /// Millisecond sleep is not reliable here: re-measure until the budget
    /// is met.
    BusyWait,
    /// The frame already used its budget; pacing is a no-op.
    AlreadyMet,
}

/// Decide how to pace the current iteration. When the elapsed time has
/// reached the target this is a no-op; otherwise the remaining budget is
/// slept away when granular sleep is available, and spun away when not.
/// The sleep duration is the remaining whole milliseconds, never negative.
pub fn pace_decision(t: &TimingInfo) -> (r: PaceDecision)
    ensures
        t.elapsed_microseconds >= t.target_microseconds_per_frame ==> r == PaceDecision::AlreadyMet,
        t.elapsed_microseconds < t.target_microseconds_per_frame && t.sleep_is_granular ==> r
            == PaceDecision::SleepMillis(
            ((t.target_microseconds_per_frame - t.elapsed_microseconds) / 1000) as u64,
        ),
        t.elapsed_microseconds < t.target_microseconds_per_frame && !t.sleep_is_granular ==> r
            == PaceDecision::BusyWait,
        (r matches PaceDecision::SleepMillis(ms) ==> 1000 * ms
            <= t.target_microseconds_per_frame - t.elapsed_microseconds),
{
    if t.elapsed_microseconds < t.target_microseconds_per_frame {
        if t.sleep_is_granular {
            PaceDecision::SleepMillis((t.target_microseconds_per_frame - t.elapsed_microseconds) / 1000)
        } else {
            PaceDecision::BusyWait
        }
    } else {
        PaceDecision::AlreadyMet
    }
}

} // verus!

