//! Host-side core of a hot-reloadable real-time simulation.
//!
//! The library holds the logic that the host process is built around: frame
//! pacing from a cycle counter and a high-resolution timer (`timing`), the
//! module hot-swap protocol (`loader`), the shared simulation state and its
//! guarded cross-thread container (`state`, `bus`), the timestamped input
//! recording log (`input`), the per-frame decisions of the host loop
//! (`host`), the decimal rendering behind its diagnostic strings (`text`),
//! and the version parsing used by the inspector's renderer (`versions`).
//! Window creation, the platform event pump, and the actual rendering live
//! outside the library.

pub mod bus;
pub mod host;
pub mod input;
pub mod loader;
pub mod state;
pub mod text;
pub mod timing;
pub mod versions;
