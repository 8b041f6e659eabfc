use vstd::prelude::*;

use crate::error::ClockError;
use crate::fidelity::NANOS_PER_SEC;
use vstd::string::StringSliceAdditionalSpecFns;

verus! {

#[verifier::external_type_specification]
#[verifier::external_body]
pub struct ExErrno(nix::errno::Errno);

/// The platforms that have a clock source.
#[derive(Debug, Clone, Copy, PartialEq, Eq, Structural)]
pub enum Platform {
    Linux,
}

/// The two clocks that are read: a monotonic one that keeps counting while the
/// system is suspended, and the real (wall) clock.
#[derive(Debug, Clone, Copy, PartialEq, Eq, Structural)]
pub enum ClockKind {
    Monotonic,
    Real,
}

/// The bytes of the platform identifier that selects `Platform::Linux`.
pub open spec fn linux_id() -> Seq<u8> {
    seq![108u8, 105u8, 110u8, 117u8, 120u8]
}

/// Nanoseconds since the clock's epoch for a reading of whole seconds and
/// sub-second nanoseconds.
pub open spec fn nanos_of(secs: int, nsec: int) -> int {
    secs * NANOS_PER_SEC + nsec
}

/// A reading is usable when both parts are non-negative, the sub-second part is
/// under one second, and the total fits in 64 bits.
pub open spec fn reading_in_range(secs: int, nsec: int) -> bool {
    &&& 0 <= secs
    &&& 0 <= nsec < NANOS_PER_SEC
    &&& nanos_of(secs, nsec) <= u64::MAX
}

impl Platform {
    /// Chooses the clock source for a platform identifier such as
    /// `std::env::consts::OS`. Every identifier but `linux` is unsupported.
    pub fn from_os(os: &str) -> (r: Result<Platform, ClockError>)
        ensures
            os.spec_bytes() == linux_id() ==> r == Ok::<Platform, ClockError>(Platform::Linux),
            os.spec_bytes() != linux_id() ==> r == Err::<Platform, ClockError>(
                ClockError::UnsupportedPlatform,
            ),
    {
        let bytes = os.as_bytes();
        let expected: [u8; 5] = [108u8, 105u8, 110u8, 117u8, 120u8];
        assert(expected@ == linux_id());
        if bytes.len() != 5 {
            return Err(ClockError::UnsupportedPlatform);
        }
        let mut i: usize = 0;
        while i < 5
            invariant
                bytes@ == os.spec_bytes(),
                bytes@.len() == 5,
                expected@ == linux_id(),
                0 <= i <= 5,
                forall|j: int| 0 <= j < i ==> bytes@[j] == linux_id()[j],
            decreases 5 - i,
        {
            if bytes[i] != expected[i] {
                return Err(ClockError::UnsupportedPlatform);
            }
            i = i + 1;
        }
        assert(bytes@ =~= linux_id());
        Ok(Platform::Linux)
    }
}

/// Combines whole seconds and sub-second nanoseconds into one nanosecond
/// count. The product is formed in 128 bits, so nothing overflows before the
/// range of the 64-bit result is checked.
pub fn nanos_from_parts(secs: i64, nsec: i64) -> (r: Result<u64, ClockError>)
    ensures
        reading_in_range(secs as int, nsec as int) ==> r == Ok::<u64, ClockError>(
            nanos_of(secs as int, nsec as int) as u64,
        ),
        !reading_in_range(secs as int, nsec as int) ==> r == Err::<u64, ClockError>(
            ClockError::ClockUnavailable,
        ),
{
    if secs < 0 || nsec < 0 || nsec >= NANOS_PER_SEC as i64 {
        return Err(ClockError::ClockUnavailable);
    }
    let s = secs as u128;
    proof {
        assert(s * (NANOS_PER_SEC as u128) <= i64::MAX * NANOS_PER_SEC) by (nonlinear_arith)
            requires
                s <= i64::MAX,
        ;
    }
    let total: u128 = s * (NANOS_PER_SEC as u128) + nsec as u128;
    if total > u64::MAX as u128 {
        return Err(ClockError::ClockUnavailable);
    }
    Ok(total as u64)
}

/// Relies on nix::time::clock_gettime, one clock_gettime(2) query: CLOCK_BOOTTIME
/// for the monotonic kind, CLOCK_REALTIME for the real one. The pair is the
/// returned TimeSpec's tv_sec and tv_nsec. Nothing is known of the values.
#[verifier::external_body]
fn clock_gettime(kind: ClockKind) -> (r: Result<(i64, i64), nix::errno::Errno>) {
    let id = match kind {
        ClockKind::Monotonic => nix::time::ClockId::CLOCK_BOOTTIME,
        ClockKind::Real => nix::time::ClockId::CLOCK_REALTIME,
    };
    nix::time::clock_gettime(id).map(|t| (t.tv_sec(), t.tv_nsec()))
}

/// Reads one clock of the platform once, in nanoseconds since its epoch.
/// A failed query, or a reading out of range, is `ClockUnavailable`.
pub fn read_nanos(platform: Platform, kind: ClockKind) -> (r: Result<u64, ClockError>)
    ensures
        r is Err ==> r == Err::<u64, ClockError>(ClockError::ClockUnavailable),
{
    match platform {
        Platform::Linux => match clock_gettime(kind) {
            Ok((secs, nsec)) => nanos_from_parts(secs, nsec),
            Err(_) => Err(ClockError::ClockUnavailable),
        },
    }
}

} // verus!
