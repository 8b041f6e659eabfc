use vstd::prelude::*;

use crate::clock::ClockModel;
use crate::error::ClockError;
use crate::fidelity::Fidelity;
use crate::source::ClockKind;
use crate::state::{ClockState, TrackModel};

verus! {

/// The track after offering the readings `rs` one after another, from `m`.
pub open spec fn replay(m: TrackModel, rs: Seq<u64>) -> TrackModel
    decreases rs.len(),
{
    if rs.len() == 0 {
        m
    } else {
        replay(m, rs.drop_last()).step(rs.last()).0
    }
}

/// What the caller gets back for the reading `rs[i]` when `rs` is offered one
/// reading after another, from `m`.
pub open spec fn outcome(m: TrackModel, rs: Seq<u64>, i: int) -> Result<u64, ClockError> {
    replay(m, rs.take(i)).step(rs[i]).1
}

proof fn lemma_replay_next(m: TrackModel, rs: Seq<u64>, k: int)
    requires
        0 <= k < rs.len(),
    ensures
        replay(m, rs.take(k + 1)) == replay(m, rs.take(k)).step(rs[k]).0,
{
    assert(rs.take(k + 1).drop_last() =~= rs.take(k));
}

proof fn lemma_replay_wf(m: TrackModel, rs: Seq<u64>)
    requires
        m.wf(),
    ensures
        replay(m, rs).wf(),
    decreases rs.len(),
{
    if rs.len() > 0 {
        lemma_replay_wf(m, rs.drop_last());
    }
}

/// Once a value has been handed back at step `i`, every later state has a last
/// reading at least that value.
proof fn lemma_last_holds(m: TrackModel, rs: Seq<u64>, i: int, k: int)
    requires
        m.wf(),
        0 <= i < k <= rs.len(),
        outcome(m, rs, i) is Ok,
    ensures
        replay(m, rs.take(k)).last.is_some(),
        outcome(m, rs, i).unwrap() <= replay(m, rs.take(k)).last.unwrap(),
    decreases k - i,
{
    lemma_replay_next(m, rs, k - 1);
    lemma_replay_wf(m, rs.take(k - 1));
    if k - 1 > i {
        lemma_last_holds(m, rs, i, k - 1);
    }
}

/// Readings handed back never decrease: of any sequence of readings offered
/// to a track, a value handed back later is at least every value handed back
/// before it.
pub proof fn observations_never_decrease(m: TrackModel, rs: Seq<u64>, i: int, j: int)
    requires
        m.wf(),
        0 <= i < j < rs.len(),
        outcome(m, rs, i) is Ok,
        outcome(m, rs, j) is Ok,
    ensures
        outcome(m, rs, i).unwrap() <= outcome(m, rs, j).unwrap(),
{
    lemma_last_holds(m, rs, i, j);
}

/// A regressed reading is refused: a reading below a value handed back
/// earlier is a `ClockRegression`, never a value.
pub proof fn regressed_reading_refused(m: TrackModel, rs: Seq<u64>, i: int, j: int)
    requires
        m.wf(),
        0 <= i < j < rs.len(),
        outcome(m, rs, i) is Ok,
        rs[j] < outcome(m, rs, i).unwrap(),
    ensures
        outcome(m, rs, j) == Err::<u64, ClockError>(ClockError::ClockRegression),
{
    lemma_last_holds(m, rs, i, j);
}

/// The guard is set once: whatever readings follow, a guard that is set stays
/// as it is.
pub proof fn guard_set_once(m: TrackModel, rs: Seq<u64>)
    requires
        m.guard.is_some(),
    ensures
        replay(m, rs).guard == m.guard,
    decreases rs.len(),
{
    if rs.len() > 0 {
        guard_set_once(m, rs.drop_last());
    }
}

/// The first reading offered to an unset track becomes its guard, and stays
/// its guard whatever readings follow.
pub proof fn first_reading_is_guard(rs: Seq<u64>)
    requires
        0 < rs.len(),
    ensures
        replay(TrackModel::unset(), rs).guard == Some(rs[0]),
{
    lemma_replay_next(TrackModel::unset(), rs, 0);
    assert(rs.take(0) =~= Seq::<u64>::empty());
    lemma_replay_split(TrackModel::unset(), rs, 1);
    guard_set_once(replay(TrackModel::unset(), rs.take(1)), rs.skip(1));
}

proof fn lemma_replay_split(m: TrackModel, rs: Seq<u64>, k: int)
    requires
        0 <= k <= rs.len(),
    ensures
        replay(m, rs) == replay(replay(m, rs.take(k)), rs.skip(k)),
    decreases rs.len(),
{
    if rs.len() == k {
        assert(rs.take(k) =~= rs);
        assert(rs.skip(k) =~= Seq::<u64>::empty());
    } else {
        lemma_replay_split(m, rs.drop_last(), k);
        assert(rs.drop_last().take(k) =~= rs.take(k));
        assert(rs.skip(k).drop_last() =~= rs.drop_last().skip(k));
        assert(rs.skip(k).last() == rs.last());
    }
}

/// Making a clock keeps the process's reference point: once the monotonic
/// guard is set, a reading accepted by `Clock::new` (or any other accepted
/// reading) leaves it as it was, so later tick counts since the process
/// started keep measuring from the same point.
pub proof fn accepted_reading_keeps_guard(old: ClockState, new: ClockState)
    requires
        old.wf(),
        old.track(ClockKind::Monotonic).guard.is_some(),
        ClockState::advanced(old, new, ClockKind::Monotonic),
    ensures
        new.track(ClockKind::Monotonic).guard == old.track(ClockKind::Monotonic).guard,
{
}

/// A stopped clock is frozen: its tick count is the same at every later
/// reading.
pub proof fn stopped_clock_is_frozen(c: ClockModel, a: u64, b: u64)
    requires
        c.stopped_at.is_some(),
    ensures
        c.ticks_at(a) == c.ticks_at(b),
{
}

/// Rescaling keeps the start: the rescaled clock starts where the clock did,
/// and counts the same elapsed nanoseconds in ticks of the new fidelity.
pub proof fn rescale_keeps_start(c: ClockModel, f: Fidelity, now: u64)
    requires
        c.wf(),
        f.is_valid(),
        c.stopped_at.is_none(),
        c.started_at <= now,
    ensures
        c.rescaled(f).started_at == c.started_at,
        c.rescaled(f).ticks_at(now) == Ok::<u64, ClockError>(
            ((now - c.started_at) / f.nanos_per_tick()) as u64,
        ),
{
}

} // verus!
