use vstd::prelude::*;

use std::sync::atomic::{AtomicU64, Ordering};

use crate::error::ClockError;
use crate::source::{read_nanos, ClockKind, Platform};
use crate::state::{judge, offset_from};

verus! {

/// The value a shared guard holds until the first reading is accepted. A
/// reading of this value is refused, so an unset guard is never mistaken for
/// a reading, zero included.
pub const UNSET: u64 = u64::MAX;

/// The guard a raw stored value stands for: none while it is `UNSET`.
pub fn guard_of(raw: u64) -> (r: Option<u64>)
    ensures
        r == (if raw == UNSET {
            None::<u64>
        } else {
            Some(raw)
        }),
{
    if raw == UNSET {
        None
    } else {
        Some(raw)
    }
}

/// The guard and the last reading of one clock, shared between threads
/// without a lock. The last reading only moves forward (`fetch_max`); the
/// guard moves once, from `UNSET` to the first accepted reading, by a
/// compare-and-swap that exactly one caller wins.
#[derive(Debug)]
pub struct SharedTrack {
    guard: AtomicU64,
    last: AtomicU64,
}

impl SharedTrack {
    /// A track that has observed nothing.
    pub fn new() -> (r: SharedTrack) {
        SharedTrack { guard: AtomicU64::new(UNSET), last: AtomicU64::new(0) }
    }

    /// Offers a fresh reading. One below the last reading any caller saw, or
    /// below the guard, is a regression; `UNSET` itself is refused as
    /// unavailable. An accepted reading is handed back unchanged.
    pub fn observe(&self, reading: u64) -> (r: Result<u64, ClockError>)
        ensures
            r is Ok ==> r == Ok::<u64, ClockError>(reading),
            r == Err::<u64, ClockError>(ClockError::ClockUnavailable) <==> reading == UNSET,
            r is Err ==> r == Err::<u64, ClockError>(ClockError::ClockUnavailable) || r == Err::<
                u64,
                ClockError,
            >(ClockError::ClockRegression),
    {
        if reading == UNSET {
            return Err(ClockError::ClockUnavailable);
        }
        let previous = self.last.fetch_max(reading, Ordering::AcqRel);
        match judge(reading, Some(previous), None) {
            Ok(_) => {},
            Err(e) => return Err(e),
        }
        let guard = match self.guard.compare_exchange(
            UNSET,
            reading,
            Ordering::AcqRel,
            Ordering::Acquire,
        ) {
            Ok(_) => reading,
            Err(g) => g,
        };
        judge(reading, Some(previous), Some(guard))
    }

    /// The guard, or `None` while no reading has been accepted.
    pub fn guard(&self) -> (r: Option<u64>)
        ensures
            r matches Some(g) ==> g != UNSET,
    {
        guard_of(self.guard.load(Ordering::Acquire))
    }
}

/// The clock state of a process in a form that any number of threads can use
/// at once through a shared reference: every operation is a clock read and a
/// few atomic read-modify-write steps, and none blocks.
///
/// What each thread's atomics return is beyond what is proved here; the
/// contracts state what holds of every answer, and the decisions are made by
/// `judge` and `offset_from`, whose contracts are exact.
#[derive(Debug)]
pub struct SharedClockState {
    platform: Platform,
    mono: SharedTrack,
    real: SharedTrack,
}

impl SharedClockState {
    /// A state that has observed nothing, reading the clocks of `platform`.
    pub fn new(platform: Platform) -> (r: SharedClockState) {
        SharedClockState { platform, mono: SharedTrack::new(), real: SharedTrack::new() }
    }

    /// Reads one clock and offers the reading to its track: a failed read is
    /// `ClockUnavailable`, a reading below what was seen before is
    /// `ClockRegression`.
    pub fn observe(&self, kind: ClockKind) -> (r: Result<u64, ClockError>)
        ensures
            r is Err ==> r == Err::<u64, ClockError>(ClockError::ClockUnavailable) || r == Err::<
                u64,
                ClockError,
            >(ClockError::ClockRegression),
    {
        let reading = match read_nanos(self.platform, kind) {
            Ok(n) => n,
            Err(e) => return Err(e),
        };
        match kind {
            ClockKind::Monotonic => self.mono.observe(reading),
            ClockKind::Real => self.real.observe(reading),
        }
    }

    /// Reads the monotonic clock: see `observe`.
    pub fn observe_monotonic(&self) -> (r: Result<u64, ClockError>)
        ensures
            r is Err ==> r == Err::<u64, ClockError>(ClockError::ClockUnavailable) || r == Err::<
                u64,
                ClockError,
            >(ClockError::ClockRegression),
    {
        self.observe(ClockKind::Monotonic)
    }

    /// Reads the real clock: see `observe`.
    pub fn observe_real(&self) -> (r: Result<u64, ClockError>)
        ensures
            r is Err ==> r == Err::<u64, ClockError>(ClockError::ClockUnavailable) || r == Err::<
                u64,
                ClockError,
            >(ClockError::ClockRegression),
    {
        self.observe(ClockKind::Real)
    }

    /// The guard of one clock kind, or `None` while no reading was accepted.
    pub fn guard(&self, kind: ClockKind) -> (r: Option<u64>)
        ensures
            r matches Some(g) ==> g != UNSET,
    {
        match kind {
            ClockKind::Monotonic => self.mono.guard(),
            ClockKind::Real => self.real.guard(),
        }
    }

    /// Reads the monotonic clock and gives the nanoseconds from the guard to
    /// that reading. The answer never exceeds the reading.
    pub fn elapsed_since_guard_monotonic(&self) -> (r: Result<u64, ClockError>)
        ensures
            r is Err ==> r == Err::<u64, ClockError>(ClockError::ClockUnavailable) || r == Err::<
                u64,
                ClockError,
            >(ClockError::ClockRegression),
    {
        let reading = match self.observe_monotonic() {
            Ok(n) => n,
            Err(e) => return Err(e),
        };
        match self.mono.guard() {
            Some(g) => match offset_from(reading, g) {
                Ok(e) => Ok(e),
                Err(_) => Err(ClockError::ClockRegression),
            },
            None => Err(ClockError::ClockUnavailable),
        }
    }

    /// Reads the monotonic clock and gives the nanoseconds from `from`, a
    /// point measured like the elapsed time from the guard, to that reading.
    /// A `from` later than the elapsed time is `InvalidBaseline`.
    pub fn elapsed_since(&self, from: u64) -> (r: Result<u64, ClockError>)
        ensures
            r is Err ==> r == Err::<u64, ClockError>(ClockError::ClockUnavailable) || r == Err::<
                u64,
                ClockError,
            >(ClockError::ClockRegression) || r == Err::<u64, ClockError>(
                ClockError::InvalidBaseline,
            ),
    {
        let elapsed = match self.elapsed_since_guard_monotonic() {
            Ok(e) => e,
            Err(e) => return Err(e),
        };
        offset_from(elapsed, from)
    }
}

} // verus!
