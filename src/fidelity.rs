use vstd::prelude::*;

use crate::error::ClockError;

verus! {

/// Nanoseconds in one millisecond.
pub const NANOS_PER_MILLI: u64 = 1_000_000;

/// Nanoseconds in one second.
pub const NANOS_PER_SEC: u64 = 1_000_000_000;

/// The length of one tick: a magnitude in nanoseconds, milliseconds or seconds.
///
/// `Fidelity::Millis(16)` scales each tick to sixteen milliseconds.
#[derive(Debug, Clone, Copy, PartialEq, Eq, Structural)]
pub enum Fidelity {
    Nanos(usize),
    Millis(usize),
    Seconds(usize),
}

impl Fidelity {
    /// Nanoseconds in one tick, as a mathematical integer.
    pub open spec fn nanos_per_tick(self) -> int {
        match self {
            Fidelity::Nanos(n) => n as int,
            Fidelity::Millis(n) => n * NANOS_PER_MILLI,
            Fidelity::Seconds(n) => n * NANOS_PER_SEC,
        }
    }

    /// A fidelity is usable when its tick is positive and fits in 64 bits.
    pub open spec fn is_valid(self) -> bool {
        0 < self.nanos_per_tick() <= u64::MAX
    }

    /// The number of nanoseconds in one tick, the divisor that scales elapsed
    /// nanoseconds into ticks.
    pub fn divisor(&self) -> (r: Result<u64, ClockError>)
        ensures
            self.is_valid() ==> r == Ok::<u64, ClockError>(self.nanos_per_tick() as u64),
            !self.is_valid() ==> r == Err::<u64, ClockError>(ClockError::InvalidFidelity),
    {
        let (n, unit): (usize, u64) = match *self {
            Fidelity::Nanos(n) => (n, 1),
            Fidelity::Millis(n) => (n, NANOS_PER_MILLI),
            Fidelity::Seconds(n) => (n, NANOS_PER_SEC),
        };
        if n == 0 {
            return Err(ClockError::InvalidFidelity);
        }
        let n = n as u64;
        if n > u64::MAX / unit {
            proof {
                assert(n * unit > u64::MAX) by (nonlinear_arith)
                    requires n > u64::MAX / unit, unit > 0;
            }
            return Err(ClockError::InvalidFidelity);
        }
        proof {
            assert(n * unit <= u64::MAX) by (nonlinear_arith)
                requires n <= u64::MAX / unit, unit > 0;
            assert(0 < n * unit) by (nonlinear_arith)
                requires n > 0, unit > 0;
        }
        Ok(n * unit)
    }
}

impl Default for Fidelity {
    /// Ticks of sixteen milliseconds.
    fn default() -> (r: Fidelity)
        ensures
            r == Fidelity::Millis(16),
    {
        Fidelity::Millis(16)
    }
}

} // verus!
