//! The module hot-swap protocol.
//!
//! The simulation's logic lives in a separately compiled code unit with three
//! fixed entry points. The host process copies the artifact to a shadow path,
//! loads the shadow copy, and resolves the entry points; those steps are file
//! and dynamic-loading work and stay outside the library. What is decided
//! here, and proved: when a reload is due (the artifact's modification time
//! strictly increased), and that installing a new module replaces the whole
//! resolved record at once — the loader never holds a partially resolved
//! module, and a swap leaves the simulation state untouched.

use vstd::prelude::*;
use crate::state::SimulationState;

verus! {

/// The three entry points resolved from a loaded code unit, as the opaque
/// handles under which the host process addresses them. A handle of 0 means
/// "not resolved" and never enters a well-formed record.
#[derive(Clone, Copy, Debug, PartialEq, Eq, Structural)]
pub struct EntryPoints {
    /// One-time setup, run once per process against the first loaded module.
    pub init: u64,
    /// Per-frame update and render call.
    pub update_and_render: u64,
    /// Pure decode of one raw platform event into an input event.
    pub decide_input: u64,
}

impl EntryPoints {
    /// All three entry points are resolved.
    pub open spec fn wf(self) -> bool {
        &&& self.init != 0
        &&& self.update_and_render != 0
        &&& self.decide_input != 0
    }
}

/// The currently active module: its resolved entry points, the modification
/// time its source artifact had when it was loaded, and how many swaps have
/// happened since startup.
#[derive(Clone, Copy, Debug, PartialEq, Eq, Structural)]
pub struct ModuleLoader {
    /// The resolved entry points of the active module.
    pub active: EntryPoints,
    /// Modification time (seconds) of the source artifact at load time.
    pub source_modified_time: u64,
    /// Number of successful swaps since the first load.
    pub generation: u64,
    /// Whether the one-time `init` entry point has been run.
    pub init_called: bool,
}

impl ModuleLoader {
    /// A loader is well formed when its active module is fully resolved.
    pub open spec fn wf(self) -> bool {
        self.active.wf()
    }

    /// Take charge of the first loaded module. `init` has not run yet.
    pub fn new(active: EntryPoints, source_modified_time: u64) -> (r: ModuleLoader)
        requires
            active.wf(),
        ensures
            r.wf(),
            r.active == active,
            r.source_modified_time == source_modified_time,
            r.generation == 0,
            !r.init_called,
    {
        ModuleLoader { active, source_modified_time, generation: 0, init_called: false }
    }

    /// Record that the one-time `init` entry point has been run.
    pub fn mark_init_called(&mut self)
        requires
            old(self).wf(),
        ensures
            final(self).wf(),
            *final(self) == (ModuleLoader { init_called: true, ..*old(self) }),
    {
        self.init_called = true;
    }

    /// Whether a freshly observed modification time of the source artifact
    /// calls for a reload: only a strict increase over the recorded time
    /// does; observing the same time again never triggers a swap.
    pub fn needs_reload(&self, observed_modified_time: u64) -> (r: bool)
        ensures
            r == (observed_modified_time > self.source_modified_time),
    {
        observed_modified_time > self.source_modified_time
    }

    /// Install a freshly loaded, fully resolved module. The whole record is
    /// replaced at once — from any caller's point of view there is never a
    /// moment with fewer than three valid entry points — and whether `init`
    /// has run is carried over: `init` is never re-run on a reload.
    pub fn install(&mut self, fresh: EntryPoints, observed_modified_time: u64)
        requires
            old(self).wf(),
            fresh.wf(),
            old(self).generation < u64::MAX,
        ensures
            final(self).wf(),
            final(self).active == fresh,
            final(self).source_modified_time == observed_modified_time,
            final(self).generation == old(self).generation + 1,
            final(self).init_called == old(self).init_called,
    {
        self.active = fresh;
        self.source_modified_time = observed_modified_time;
        self.generation = self.generation + 1;
    }
}

/// One frame's reload phase over the pair (loader, simulation state): when
/// the observed modification time strictly exceeds the recorded one the
/// fresh module is installed, otherwise nothing changes — and the simulation
/// state is the same in either case.
pub open spec fn spec_reload_cycle(
    l: ModuleLoader,
    sim: SimulationState,
    observed_modified_time: u64,
    fresh: EntryPoints,
) -> (ModuleLoader, SimulationState) {
    if observed_modified_time > l.source_modified_time {
        (
            ModuleLoader {
                active: fresh,
                source_modified_time: observed_modified_time,
                generation: (l.generation + 1) as u64,
                init_called: l.init_called,
            },
            sim,
        )
    } else {
        (l, sim)
    }
}

/// Law: a full reload cycle — a changed modification time followed by the
/// swap — preserves the simulation state exactly; the swap replaces the
/// loader's module record whole (all three entry points from the fresh
/// load, nothing of the old one) and keeps the one-time-`init` mark, and a
/// check that observes no increase of the modification time changes nothing.
pub proof fn lemma_reload_cycle_preserves_state(
    l: ModuleLoader,
    sim: SimulationState,
    observed_modified_time: u64,
    fresh: EntryPoints,
)
    requires
        l.wf(),
        fresh.wf(),
        l.generation < u64::MAX,
    ensures
        spec_reload_cycle(l, sim, observed_modified_time, fresh).1 == sim,
        spec_reload_cycle(l, sim, observed_modified_time, fresh).0.wf(),
        observed_modified_time > l.source_modified_time ==> spec_reload_cycle(
            l,
            sim,
            observed_modified_time,
            fresh,
        ).0.active == fresh,
        observed_modified_time > l.source_modified_time ==> spec_reload_cycle(
            l,
            sim,
            observed_modified_time,
            fresh,
        ).0.init_called == l.init_called,
        observed_modified_time <= l.source_modified_time ==> spec_reload_cycle(
            l,
            sim,
            observed_modified_time,
            fresh,
        ).0 == l,
{
}

/// Law: the loader never exposes a module with a missing entry point — both
/// taking charge of the first load and any number of installs keep every
/// entry point of the active record resolved.
pub proof fn lemma_active_module_always_resolved(l: ModuleLoader)
    requires
        l.wf(),
    ensures
        l.active.init != 0,
        l.active.update_and_render != 0,
        l.active.decide_input != 0,
{
}

} // verus!
