use vstd::prelude::*;

use crate::error::ClockError;
use crate::source::{read_nanos, ClockKind, Platform};

verus! {

/// What a `Track` knows: the first reading ever accepted (the guard, the zero
/// point of elapsed time) and the most recent one. Both are unset until the
/// first reading is accepted.
pub struct TrackModel {
    pub guard: Option<u64>,
    pub last: Option<u64>,
}

impl TrackModel {
    /// Nothing observed yet.
    pub open spec fn unset() -> TrackModel {
        TrackModel { guard: None, last: None }
    }

    /// The guard and the last reading are set together, and the guard never
    /// exceeds the last reading.
    pub open spec fn wf(self) -> bool {
        &&& self.guard.is_some() == self.last.is_some()
        &&& self.guard.is_some() ==> self.guard.unwrap() <= self.last.unwrap()
    }

    /// A reading is accepted unless it is smaller than the last reading or the
    /// guard.
    pub open spec fn accepts(self, reading: u64) -> bool {
        &&& self.last.is_some() ==> self.last.unwrap() <= reading
        &&& self.guard.is_some() ==> self.guard.unwrap() <= reading
    }

    /// The state after accepting a reading: it becomes the last reading, and
    /// the guard too if none was set.
    pub open spec fn after(self, reading: u64) -> TrackModel {
        TrackModel {
            guard: if self.guard.is_some() {
                self.guard
            } else {
                Some(reading)
            },
            last: Some(reading),
        }
    }

    /// The outcome of offering a reading: the new state and what the caller gets.
    pub open spec fn step(self, reading: u64) -> (TrackModel, Result<u64, ClockError>) {
        if self.accepts(reading) {
            (self.after(reading), Ok(reading))
        } else {
            (self, Err(ClockError::ClockRegression))
        }
    }

    /// Nanoseconds from the guard to the last reading.
    pub open spec fn elapsed(self) -> int {
        self.last.unwrap() - self.guard.unwrap()
    }
}

/// The guard and the last reading of one clock.
#[derive(Debug)]
pub struct Track {
    guard: Option<u64>,
    last: Option<u64>,
}

impl View for Track {
    type V = TrackModel;

    closed spec fn view(&self) -> TrackModel {
        TrackModel { guard: self.guard, last: self.last }
    }
}

impl Track {
    pub open spec fn wf(&self) -> bool {
        self@.wf()
    }

    /// A track that has observed nothing.
    pub fn new() -> (r: Track)
        ensures
            r@ == TrackModel::unset(),
            r.wf(),
    {
        Track { guard: None, last: None }
    }

    /// Offers a fresh reading. A reading smaller than the last one or the
    /// guard is a regression and changes nothing; any other becomes the last
    /// reading, and the guard if none was set, and is handed back.
    pub fn observe(&mut self, reading: u64) -> (r: Result<u64, ClockError>)
        requires
            old(self).wf(),
        ensures
            final(self).wf(),
            (final(self)@, r) == old(self)@.step(reading),
    {
        match judge(reading, self.last, self.guard) {
            Ok(_) => {},
            Err(e) => return Err(e),
        }
        self.last = Some(reading);
        if self.guard.is_none() {
            self.guard = Some(reading);
        }
        Ok(reading)
    }

    /// The first reading accepted, if any.
    pub fn guard(&self) -> (r: Option<u64>)
        ensures
            r == self@.guard,
    {
        self.guard
    }

    /// The most recent reading accepted, if any.
    pub fn last(&self) -> (r: Option<u64>)
        ensures
            r == self@.last,
    {
        self.last
    }

    /// Nanoseconds from the guard to the last reading, or `None` before the
    /// first reading.
    pub fn elapsed(&self) -> (r: Option<u64>)
        requires
            self.wf(),
        ensures
            self@.last.is_none() ==> r.is_none(),
            self@.last.is_some() ==> r == Some(self@.elapsed() as u64),
    {
        match (self.guard, self.last) {
            (Some(g), Some(l)) => Some(l - g),
            _ => None,
        }
    }
}

/// Decides whether a fresh reading may be accepted, given the last reading and
/// the guard (unset before the first reading): a reading below either is a
/// regression.
pub fn judge(reading: u64, last: Option<u64>, guard: Option<u64>) -> (r: Result<u64, ClockError>)
    ensures
        (TrackModel { guard, last }).accepts(reading) ==> r == Ok::<u64, ClockError>(reading),
        !(TrackModel { guard, last }).accepts(reading) ==> r == Err::<u64, ClockError>(
            ClockError::ClockRegression,
        ),
{
    let below_last = match last {
        Some(l) => reading < l,
        None => false,
    };
    let below_guard = match guard {
        Some(g) => reading < g,
        None => false,
    };
    if below_last || below_guard {
        Err(ClockError::ClockRegression)
    } else {
        Ok(reading)
    }
}

/// Subtracts a baseline from an elapsed time. A baseline later than the
/// elapsed time is refused rather than wrapped around.
pub fn offset_from(elapsed: u64, from: u64) -> (r: Result<u64, ClockError>)
    ensures
        from <= elapsed ==> r == Ok::<u64, ClockError>((elapsed - from) as u64),
        from > elapsed ==> r == Err::<u64, ClockError>(ClockError::InvalidBaseline),
{
    if from > elapsed {
        Err(ClockError::InvalidBaseline)
    } else {
        Ok(elapsed - from)
    }
}

/// The clock state that every clock handle of a process shares: one track for
/// the monotonic clock and one for the real clock, and the platform to read
/// them from.
#[derive(Debug)]
pub struct ClockState {
    platform: Platform,
    mono: Track,
    real: Track,
}

impl ClockState {
    /// The track of one clock kind.
    pub closed spec fn track(self, kind: ClockKind) -> TrackModel {
        match kind {
            ClockKind::Monotonic => self.mono@,
            ClockKind::Real => self.real@,
        }
    }

    /// The platform the clocks are read from.
    pub closed spec fn platform(self) -> Platform {
        self.platform
    }

    pub open spec fn wf(self) -> bool {
        &&& self.track(ClockKind::Monotonic).wf()
        &&& self.track(ClockKind::Real).wf()
    }

    /// `self` and `other` differ at most in the track of `kind`.
    pub open spec fn same_except(self, other: ClockState, kind: ClockKind) -> bool {
        &&& self.platform() == other.platform()
        &&& forall|k: ClockKind| k != kind ==> self.track(k) == other.track(k)
    }

    /// `new` is `old` after one accepted reading of `kind`: that reading is
    /// the new last reading.
    pub open spec fn advanced(old: ClockState, new: ClockState, kind: ClockKind) -> bool {
        &&& new.track(kind).last.is_some()
        &&& old.track(kind).accepts(new.track(kind).last.unwrap())
        &&& new.track(kind) == old.track(kind).after(new.track(kind).last.unwrap())
    }

    /// A state that has observed nothing, reading the clocks of `platform`.
    pub fn new(platform: Platform) -> (r: ClockState)
        ensures
            r.wf(),
            r.platform() == platform,
            r.track(ClockKind::Monotonic) == TrackModel::unset(),
            r.track(ClockKind::Real) == TrackModel::unset(),
    {
        ClockState { platform, mono: Track::new(), real: Track::new() }
    }

    /// Reads one clock and offers the reading to its track. A failed read is
    /// `ClockUnavailable`; a reading below the last or the guard is
    /// `ClockRegression`; either leaves the state as it was. A value handed
    /// back is never below any value handed back before for the same kind.
    pub fn observe(&mut self, kind: ClockKind) -> (r: Result<u64, ClockError>)
        requires
            old(self).wf(),
        ensures
            final(self).wf(),
            final(self).same_except(*old(self), kind),
            match r {
                Ok(v) => old(self).track(kind).accepts(v)
                    && final(self).track(kind) == old(self).track(kind).after(v),
                Err(e) => final(self).track(kind) == old(self).track(kind)
                    && (e == ClockError::ClockUnavailable || e == ClockError::ClockRegression),
            },
    {
        let reading = match read_nanos(self.platform, kind) {
            Ok(n) => n,
            Err(e) => return Err(e),
        };
        match kind {
            ClockKind::Monotonic => self.mono.observe(reading),
            ClockKind::Real => self.real.observe(reading),
        }
    }

    /// Reads the monotonic clock: see `observe`.
    pub fn observe_monotonic(&mut self) -> (r: Result<u64, ClockError>)
        requires
            old(self).wf(),
        ensures
            final(self).wf(),
            final(self).same_except(*old(self), ClockKind::Monotonic),
            match r {
                Ok(v) => old(self).track(ClockKind::Monotonic).accepts(v) && final(self).track(
                    ClockKind::Monotonic,
                ) == old(self).track(ClockKind::Monotonic).after(v),
                Err(e) => final(self).track(ClockKind::Monotonic) == old(self).track(
                    ClockKind::Monotonic,
                ) && (e == ClockError::ClockUnavailable || e == ClockError::ClockRegression),
            },
    {
        self.observe(ClockKind::Monotonic)
    }

    /// Reads the real clock: see `observe`. A real clock set backward is a
    /// regression too.
    pub fn observe_real(&mut self) -> (r: Result<u64, ClockError>)
        requires
            old(self).wf(),
        ensures
            final(self).wf(),
            final(self).same_except(*old(self), ClockKind::Real),
            match r {
                Ok(v) => old(self).track(ClockKind::Real).accepts(v) && final(self).track(
                    ClockKind::Real,
                ) == old(self).track(ClockKind::Real).after(v),
                Err(e) => final(self).track(ClockKind::Real) == old(self).track(ClockKind::Real)
                    && (e == ClockError::ClockUnavailable || e == ClockError::ClockRegression),
            },
    {
        self.observe(ClockKind::Real)
    }

    /// Reads the monotonic clock and gives the nanoseconds from the guard to
    /// that reading.
    pub fn elapsed_since_guard_monotonic(&mut self) -> (r: Result<u64, ClockError>)
        requires
            old(self).wf(),
        ensures
            final(self).wf(),
            final(self).same_except(*old(self), ClockKind::Monotonic),
            match r {
                Ok(e) => ClockState::advanced(*old(self), *final(self), ClockKind::Monotonic)
                    && e == final(self).track(ClockKind::Monotonic).elapsed(),
                Err(e) => final(self).track(ClockKind::Monotonic) == old(self).track(
                    ClockKind::Monotonic,
                ) && (e == ClockError::ClockUnavailable || e == ClockError::ClockRegression),
            },
    {
        match self.observe(ClockKind::Monotonic) {
            Ok(_) => {},
            Err(e) => return Err(e),
        }
        match self.mono.elapsed() {
            Some(e) => Ok(e),
            None => Err(ClockError::ClockUnavailable),
        }
    }

    /// Reads the monotonic clock and gives the nanoseconds from `from`, a
    /// point measured like the elapsed time from the guard, to that reading.
    /// A `from` later than the elapsed time is `InvalidBaseline`.
    pub fn elapsed_since(&mut self, from: u64) -> (r: Result<u64, ClockError>)
        requires
            old(self).wf(),
        ensures
            final(self).wf(),
            final(self).same_except(*old(self), ClockKind::Monotonic),
            match r {
                Ok(e) => ClockState::advanced(*old(self), *final(self), ClockKind::Monotonic)
                    && from <= final(self).track(ClockKind::Monotonic).elapsed()
                    && e == final(self).track(ClockKind::Monotonic).elapsed() - from,
                Err(ClockError::InvalidBaseline) => ClockState::advanced(
                    *old(self),
                    *final(self),
                    ClockKind::Monotonic,
                ) && from > final(self).track(ClockKind::Monotonic).elapsed(),
                Err(e) => final(self).track(ClockKind::Monotonic) == old(self).track(
                    ClockKind::Monotonic,
                ) && (e == ClockError::ClockUnavailable || e == ClockError::ClockRegression),
            },
    {
        let elapsed = match self.elapsed_since_guard_monotonic() {
            Ok(e) => e,
            Err(e) => return Err(e),
        };
        offset_from(elapsed, from)
    }

    /// The guard of one clock kind: its first accepted reading, if any.
    pub fn guard(&self, kind: ClockKind) -> (r: Option<u64>)
        ensures
            r == self.track(kind).guard,
    {
        match kind {
            ClockKind::Monotonic => self.mono.guard(),
            ClockKind::Real => self.real.guard(),
        }
    }
}

} // verus!
