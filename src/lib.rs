//! A monotonic clock that turns nanosecond readings of the operating system's
//! clocks into tick counts of a chosen fidelity, and guards against readings
//! that run backward.
//!
//! `state::ClockState` holds the first and the last reading of each clock and
//! is shared by every `clock::Clock` of a process; readings come from
//! `source`, and `laws` states what holds over sequences of readings.

pub mod clock;
pub mod error;
pub mod fidelity;
pub mod laws;
pub mod shared;
pub mod source;
pub mod state;
