//! Signal notifications for readiness-based event loops.
//!
//! This crate models process signals as plain values: a closed [`Signal`]
//! vocabulary, a non-empty bit-set [`SignalSet`] over it, the mapping between
//! the vocabulary and the operating system's signal numbers, and the
//! decision logic a signal backend follows when it drains its kernel queue.
//! Everything here is pure and verified; the system calls that deliver,
//! block and restore signals live outside this crate and hand their raw
//! outcomes to the functions defined here.

pub mod backend;
pub mod raw;
pub mod signal;

pub use raw::from_raw_signal;
pub use raw::raw_signal;
pub use signal::Signal;
pub use signal::SignalSet;
pub use signal::SignalSetIter;
