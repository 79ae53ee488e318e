//! Asynchronous reaping of child processes on Unix.
//!
//! The only notification the operating system gives of a child's exit is a
//! process-wide, coalescable signal. Every waiting reaper therefore re-probes
//! its own child on every notification, and drains a shared queue of orphans:
//! children whose reaper was discarded before they exited.

pub mod status;
pub mod orphan;
pub mod reap;
pub mod child;

pub use status::{ExitStatus, ReapError, KillError};
pub use orphan::{Wait, OrphanQueue, DrainReport, Fate};
pub use reap::{Reaper, ReapState, Wake, Action, Kill};
pub use child::Child;
