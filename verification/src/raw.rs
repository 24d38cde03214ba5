//! Translation between the portable [`Signal`] vocabulary and the native
//! signal numbers of the operating system.
//!
//! The translation is total, pure and allocation free, and the two directions
//! are mutually inverse: [`from_raw_signal`] undoes [`raw_signal`], and any
//! native number outside the vocabulary maps to `None`, which is not an
//! error but a "not ours, keep draining" result. The numbers follow the
//! Linux numbering of the POSIX signals.

use vstd::prelude::*;

use crate::signal::Signal;

verus! {

/// Native number of the interrupt signal, `SIGINT`.
pub const SIGINT: i32 = 2;

/// Native number of the terminal quit signal, `SIGQUIT`.
pub const SIGQUIT: i32 = 3;

/// Native number of the termination request signal, `SIGTERM`.
pub const SIGTERM: i32 = 15;

/// Native number of the first user-defined signal, `SIGUSR1`.
pub const SIGUSR1: i32 = 10;

/// Native number of the second user-defined signal, `SIGUSR2`.
pub const SIGUSR2: i32 = 12;

/// The native number of `signal`.
pub open spec fn spec_raw_signal(signal: Signal) -> i32 {
    match signal {
        Signal::Interrupt => SIGINT,
        Signal::Quit => SIGQUIT,
        Signal::Terminate => SIGTERM,
        Signal::User1 => SIGUSR1,
        Signal::User2 => SIGUSR2,
    }
}

/// The vocabulary signal whose native number is `raw`, if there is one.
pub open spec fn spec_from_raw_signal(raw: i32) -> Option<Signal> {
    if raw == SIGINT {
        Some(Signal::Interrupt)
    } else if raw == SIGQUIT {
        Some(Signal::Quit)
    } else if raw == SIGTERM {
        Some(Signal::Terminate)
    } else if raw == SIGUSR1 {
        Some(Signal::User1)
    } else if raw == SIGUSR2 {
        Some(Signal::User2)
    } else {
        None
    }
}

/// Convert a `signal` into a native Unix signal number.
pub fn raw_signal(signal: Signal) -> (r: i32)
    ensures
        r == spec_raw_signal(signal),
{
    match signal {
        Signal::Interrupt => SIGINT,
        Signal::Quit => SIGQUIT,
        Signal::Terminate => SIGTERM,
        Signal::User1 => SIGUSR1,
        Signal::User2 => SIGUSR2,
    }
}

/// Convert a native Unix signal number into a signal.
///
/// Returns `None` for any number outside the supported vocabulary; callers
/// treat such a record as "not ours" and keep draining.
pub fn from_raw_signal(raw_signal: i32) -> (r: Option<Signal>)
    ensures
        r == spec_from_raw_signal(raw_signal),
{
    if raw_signal == SIGINT {
        Some(Signal::Interrupt)
    } else if raw_signal == SIGQUIT {
        Some(Signal::Quit)
    } else if raw_signal == SIGTERM {
        Some(Signal::Terminate)
    } else if raw_signal == SIGUSR1 {
        Some(Signal::User1)
    } else if raw_signal == SIGUSR2 {
        Some(Signal::User2)
    } else {
        None
    }
}

/// The two directions of the translation undo each other: translating a
/// signal to its native number and back yields the same signal, so the
/// composition `raw_signal . from_raw_signal . raw_signal` equals
/// `raw_signal` alone.
pub proof fn lemma_raw_signal_round_trip(signal: Signal)
    ensures
        spec_from_raw_signal(spec_raw_signal(signal)) == Some(signal),
        spec_raw_signal(spec_from_raw_signal(spec_raw_signal(signal)).unwrap()) == spec_raw_signal(
            signal,
        ),
{
}

/// Whatever signal the backward translation recognizes, the forward
/// translation takes it back to the very number it came from.
pub proof fn lemma_from_raw_signal_inverse(raw: i32, signal: Signal)
    requires
        spec_from_raw_signal(raw) == Some(signal),
    ensures
        spec_raw_signal(signal) == raw,
{
}

} // verus!
