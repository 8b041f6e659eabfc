use vstd::prelude::*;

verus! {

/// What can go wrong while reading or scaling the clock.
///
/// `UnsupportedPlatform`, `ClockUnavailable` and `ClockRegression` mean that no
/// trustworthy notion of "now" exists; the embedding application decides
/// whether to abort. `InvalidFidelity` and `InvalidBaseline` are usage errors.
#[derive(Debug, Clone, Copy, PartialEq, Eq, Structural)]
pub enum ClockError {
    /// The running platform has no clock source.
    UnsupportedPlatform,
    /// The platform's time query failed or gave a value out of range.
    ClockUnavailable,
    /// A fresh reading is smaller than one observed before it.
    ClockRegression,
    /// A fidelity of zero magnitude, or one whose divisor does not fit in 64 bits.
    InvalidFidelity,
    /// A baseline later than the elapsed time it is subtracted from.
    InvalidBaseline,
}

} // verus!
