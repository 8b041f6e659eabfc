use vstd::prelude::*;

use crate::error::ClockError;
use crate::fidelity::Fidelity;
use crate::source::ClockKind;
use crate::state::ClockState;

verus! {

/// What a `Clock` holds: the monotonic reading taken when it was made, the
/// reading taken when it was stopped, if it was, and its fidelity.
pub struct ClockModel {
    pub started_at: u64,
    pub stopped_at: Option<u64>,
    pub fidelity: Fidelity,
}

impl ClockModel {
    /// The fidelity is usable, and a clock is never stopped before it started.
    pub open spec fn wf(self) -> bool {
        &&& self.fidelity.is_valid()
        &&& self.stopped_at.is_some() ==> self.started_at <= self.stopped_at.unwrap()
    }

    /// Whole ticks in `nanos` nanoseconds, rounded down.
    pub open spec fn scaled(self, nanos: int) -> int {
        nanos / self.fidelity.nanos_per_tick()
    }

    /// Ticks since the start at the monotonic reading `now`. A stopped clock
    /// counts up to its stop, whatever `now` is; a running one refuses a `now`
    /// before its start.
    pub open spec fn ticks_at(self, now: u64) -> Result<u64, ClockError> {
        match self.stopped_at {
            Some(s) => Ok(self.scaled(s - self.started_at) as u64),
            None => if self.started_at <= now {
                Ok(self.scaled(now - self.started_at) as u64)
            } else {
                Err(ClockError::ClockRegression)
            },
        }
    }

    /// The clock stopped at `now`; a clock already stopped stays as it is.
    pub open spec fn stopped(self, now: u64) -> ClockModel {
        if self.stopped_at.is_some() {
            self
        } else {
            ClockModel { stopped_at: Some(now), ..self }
        }
    }

    /// The clock with another fidelity, and the same start and stop.
    pub open spec fn rescaled(self, fidelity: Fidelity) -> ClockModel {
        ClockModel { fidelity, ..self }
    }
}

/// A handle that counts ticks of a chosen fidelity from the moment it was
/// made. Every handle of a process reads through one shared `ClockState`.
#[derive(Debug)]
pub struct Clock {
    started_at: u64,
    stopped_at: Option<u64>,
    fidelity: Fidelity,
    div: u64,
}

impl View for Clock {
    type V = ClockModel;

    closed spec fn view(&self) -> ClockModel {
        ClockModel {
            started_at: self.started_at,
            stopped_at: self.stopped_at,
            fidelity: self.fidelity,
        }
    }
}

impl Clock {
    pub closed spec fn wf(&self) -> bool {
        &&& self@.wf()
        &&& self.div as int == self.fidelity.nanos_per_tick()
    }

    /// A well-formed clock has a usable fidelity and never stops before it
    /// started.
    pub proof fn lemma_wf_model(c: &Clock)
        requires
            c.wf(),
        ensures
            c@.wf(),
            c@.fidelity.nanos_per_tick() > 0,
    {
    }

    /// A running clock whose start is the monotonic reading `started_at`.
    pub fn from_start(f: Fidelity, started_at: u64) -> (r: Result<Clock, ClockError>)
        ensures
            f.is_valid() <==> r is Ok,
            !f.is_valid() ==> r == Err::<Clock, ClockError>(ClockError::InvalidFidelity),
            r matches Ok(c) ==> c.wf() && c@ == (ClockModel {
                started_at,
                stopped_at: None,
                fidelity: f,
            }),
    {
        let div = match f.divisor() {
            Ok(d) => d,
            Err(e) => return Err(e),
        };
        Ok(Clock { started_at, stopped_at: None, fidelity: f, div })
    }

    /// Makes a running clock: reads the monotonic clock through `state`, which
    /// sets the state's guard if this is the first reading, and starts at that
    /// reading. An invalid fidelity is refused before anything is read.
    pub fn new(f: Fidelity, state: &mut ClockState) -> (r: Result<Clock, ClockError>)
        requires
            old(state).wf(),
        ensures
            final(state).wf(),
            final(state).same_except(*old(state), ClockKind::Monotonic),
            !f.is_valid() ==> r == Err::<Clock, ClockError>(ClockError::InvalidFidelity)
                && *final(state) == *old(state),
            f.is_valid() ==> r != Err::<Clock, ClockError>(ClockError::InvalidFidelity),
            match r {
                Ok(c) => f.is_valid() && c.wf() && ClockState::advanced(
                    *old(state),
                    *final(state),
                    ClockKind::Monotonic,
                ) && c@ == (ClockModel {
                    started_at: final(state).track(ClockKind::Monotonic).last.unwrap(),
                    stopped_at: None,
                    fidelity: f,
                }),
                Err(e) => final(state).track(ClockKind::Monotonic) == old(state).track(
                    ClockKind::Monotonic,
                ) && (e == ClockError::InvalidFidelity || e == ClockError::ClockUnavailable || e
                    == ClockError::ClockRegression),
            },
    {
        let div = match f.divisor() {
            Ok(d) => d,
            Err(e) => return Err(e),
        };
        let now = match state.observe_monotonic() {
            Ok(v) => v,
            Err(e) => return Err(e),
        };
        Ok(Clock { started_at: now, stopped_at: None, fidelity: f, div })
    }

    /// Changes the fidelity that later tick counts use; the start and the stop
    /// stay as they were. An invalid fidelity is refused and changes nothing.
    pub fn sweep(&mut self, f: Fidelity) -> (r: Result<(), ClockError>)
        requires
            old(self).wf(),
        ensures
            final(self).wf(),
            f.is_valid() ==> r is Ok && final(self)@ == old(self)@.rescaled(f),
            !f.is_valid() ==> r == Err::<(), ClockError>(ClockError::InvalidFidelity)
                && final(self)@ == old(self)@,
    {
        let div = match f.divisor() {
            Ok(d) => d,
            Err(e) => return Err(e),
        };
        self.fidelity = f;
        self.div = div;
        Ok(())
    }

    /// Whole ticks in `nanos` nanoseconds at this clock's fidelity, rounded
    /// down.
    pub fn scale(&self, nanos: u64) -> (r: u64)
        requires
            self.wf(),
        ensures
            r == self@.scaled(nanos as int),
    {
        nanos / self.div
    }

    /// Ticks since the start at the monotonic reading `now`: see
    /// `ClockModel::ticks_at`.
    pub fn ticks_at(&self, now: u64) -> (r: Result<u64, ClockError>)
        requires
            self.wf(),
        ensures
            r == self@.ticks_at(now),
    {
        match self.stopped_at {
            Some(s) => Ok(self.scale(s - self.started_at)),
            None => if self.started_at <= now {
                Ok(self.scale(now - self.started_at))
            } else {
                Err(ClockError::ClockRegression)
            },
        }
    }

    /// Stops the clock at the monotonic reading `now`. Stopping a stopped
    /// clock changes nothing; a `now` before the start is a regression and
    /// changes nothing either.
    pub fn stop_at(&mut self, now: u64) -> (r: Result<(), ClockError>)
        requires
            old(self).wf(),
        ensures
            final(self).wf(),
            old(self)@.stopped_at.is_none() && now < old(self)@.started_at ==> r == Err::<
                (),
                ClockError,
            >(ClockError::ClockRegression) && final(self)@ == old(self)@,
            !(old(self)@.stopped_at.is_none() && now < old(self)@.started_at) ==> r is Ok
                && final(self)@ == old(self)@.stopped(now),
    {
        if self.stopped_at.is_some() {
            return Ok(());
        }
        if now < self.started_at {
            return Err(ClockError::ClockRegression);
        }
        self.stopped_at = Some(now);
        Ok(())
    }

    /// Stops the clock at a fresh monotonic reading, after which its tick
    /// count no longer moves. Stopping a stopped clock reads nothing and
    /// changes nothing.
    pub fn stop(&mut self, state: &mut ClockState) -> (r: Result<(), ClockError>)
        requires
            old(self).wf(),
            old(state).wf(),
        ensures
            final(self).wf(),
            final(state).wf(),
            final(state).same_except(*old(state), ClockKind::Monotonic),
            old(self)@.stopped_at.is_some() ==> r is Ok && final(self)@ == old(self)@
                && *final(state) == *old(state),
            r is Ok ==> final(self)@.stopped_at.is_some(),
            old(self)@.stopped_at.is_none() && r is Ok ==> ClockState::advanced(
                *old(state),
                *final(state),
                ClockKind::Monotonic,
            ) && final(self)@ == old(self)@.stopped(
                final(state).track(ClockKind::Monotonic).last.unwrap(),
            ),
            r is Err ==> final(self)@ == old(self)@ && (r == Err::<(), ClockError>(
                ClockError::ClockUnavailable,
            ) || r == Err::<(), ClockError>(ClockError::ClockRegression)),
    {
        if self.stopped_at.is_some() {
            return Ok(());
        }
        let now = match state.observe_monotonic() {
            Ok(v) => v,
            Err(e) => return Err(e),
        };
        self.stop_at(now)
    }

    /// Ticks since the start. A stopped clock gives its frozen count and reads
    /// nothing; a running one reads the monotonic clock through `state`.
    pub fn tick(&self, state: &mut ClockState) -> (r: Result<u64, ClockError>)
        requires
            self.wf(),
            old(state).wf(),
        ensures
            final(state).wf(),
            final(state).same_except(*old(state), ClockKind::Monotonic),
            self@.stopped_at matches Some(s) ==> r == Ok::<u64, ClockError>(
                self@.scaled(s - self@.started_at) as u64,
            ) && *final(state) == *old(state),
            self@.stopped_at.is_none() ==> (ClockState::advanced(
                *old(state),
                *final(state),
                ClockKind::Monotonic,
            ) && r == self@.ticks_at(final(state).track(ClockKind::Monotonic).last.unwrap())) || (
            final(state).track(ClockKind::Monotonic) == old(state).track(ClockKind::Monotonic) && (r
                == Err::<u64, ClockError>(ClockError::ClockUnavailable) || r == Err::<
                u64,
                ClockError,
            >(ClockError::ClockRegression))),
    {
        if self.stopped_at.is_some() {
            return self.ticks_at(0);
        }
        let now = match state.observe_monotonic() {
            Ok(v) => v,
            Err(e) => return Err(e),
        };
        self.ticks_at(now)
    }

    /// Ticks since the process's first monotonic reading (the state's guard),
    /// whatever this clock's own start; reads the monotonic clock through
    /// `state`.
    pub fn real_tick(&self, state: &mut ClockState) -> (r: Result<u64, ClockError>)
        requires
            self.wf(),
            old(state).wf(),
        ensures
            final(state).wf(),
            final(state).same_except(*old(state), ClockKind::Monotonic),
            r is Ok ==> ClockState::advanced(*old(state), *final(state), ClockKind::Monotonic)
                && r == Ok::<u64, ClockError>(
                self@.scaled(final(state).track(ClockKind::Monotonic).elapsed()) as u64,
            ),
            r is Err ==> final(state).track(ClockKind::Monotonic) == old(state).track(
                ClockKind::Monotonic,
            ) && (r == Err::<u64, ClockError>(ClockError::ClockUnavailable) || r == Err::<
                u64,
                ClockError,
            >(ClockError::ClockRegression)),
    {
        let elapsed = match state.elapsed_since_guard_monotonic() {
            Ok(e) => e,
            Err(e) => return Err(e),
        };
        Ok(self.scale(elapsed))
    }

    /// The monotonic reading the clock started at.
    pub fn started_at(&self) -> (r: u64)
        ensures
            r == self@.started_at,
    {
        self.started_at
    }

    /// The monotonic reading the clock stopped at, if it was stopped.
    pub fn stopped_at(&self) -> (r: Option<u64>)
        ensures
            r == self@.stopped_at,
    {
        self.stopped_at
    }

    /// The fidelity of the clock's ticks.
    pub fn fidelity(&self) -> (r: Fidelity)
        ensures
            r == self@.fidelity,
    {
        self.fidelity
    }
}

} // verus!
