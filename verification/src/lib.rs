//! Fork-safe spawning of worker processes through an in-memory trampoline
//! executable.
//!
//! A spawn is planned entirely before any process is created: the argument
//! list and environment block are laid out as immutable, NUL-terminated
//! byte buffers, so that the child performs no heap allocation between
//! fork and exec. The trampoline image itself is materialized into an
//! anonymous, memory-backed file descriptor, never touching disk.
//!
//! The crate decides and lays out; the caller carries out. A
//! [`spawn::Spawned`] value says exactly what must happen next: nothing
//! (the no-op target), a symbol resolution (the function-pointer target),
//! or a fork followed by an exec of the prepared [`spawn::LaunchPlan`].

pub mod cbytes;
pub mod image;
pub mod spawn;
pub mod trampoline;
pub mod laws;

pub use spawn::WaitOutcome;
