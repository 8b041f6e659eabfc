use monoclock::clock::Clock;
use monoclock::error::ClockError;
use monoclock::fidelity::Fidelity;
use monoclock::shared::{guard_of, SharedClockState, SharedTrack, UNSET};
use monoclock::source::{ClockKind, Platform};
use monoclock::state::judge;

#[test]
fn judge_decides_regression() {
    assert_eq!(judge(5, None, None), Ok(5));
    assert_eq!(judge(5, Some(5), Some(1)), Ok(5));
    assert_eq!(judge(4, Some(5), Some(1)), Err(ClockError::ClockRegression));
    assert_eq!(judge(4, None, Some(9)), Err(ClockError::ClockRegression));
    assert_eq!(judge(0, Some(0), Some(0)), Ok(0));
}

#[test]
fn shared_track_refuses_regression() {
    let track = SharedTrack::new();
    assert_eq!(track.guard(), None);
    assert_eq!(track.observe(0), Ok(0));
    assert_eq!(track.guard(), Some(0));
    assert_eq!(track.observe(8), Ok(8));
    assert_eq!(track.observe(7), Err(ClockError::ClockRegression));
    assert_eq!(track.observe(8), Ok(8));
    assert_eq!(track.guard(), Some(0));
    assert_eq!(track.observe(UNSET), Err(ClockError::ClockUnavailable));
}

#[test]
fn shared_state_interleaved_callers() {
    let state = SharedClockState::new(Platform::Linux);
    let first = state.observe_monotonic().unwrap();
    let guard = state.guard(ClockKind::Monotonic);
    assert_eq!(guard, Some(first));
    let shared = &state;
    let mut seen = vec![first; 4];
    for round in 0..200 {
        let caller = round % 4;
        let next = shared.observe_monotonic().unwrap();
        assert!(seen.iter().all(|&v| next >= v));
        seen[caller] = next;
        assert_eq!(shared.guard(ClockKind::Monotonic), guard);
    }
}

#[test]
fn shared_state_drives_a_clock() {
    let state = SharedClockState::new(Platform::Linux);
    let start = state.observe_monotonic().unwrap();
    let clock = Clock::from_start(Fidelity::Nanos(1), start).unwrap();
    let now = state.observe_monotonic().unwrap();
    assert_eq!(clock.ticks_at(now), Ok(now - start));
    assert_eq!(state.elapsed_since(u64::MAX), Err(ClockError::InvalidBaseline));
    assert!(state.elapsed_since_guard_monotonic().is_ok());
    assert!(state.observe_real().unwrap() > 0);
}

#[test]
fn guard_of_raw_values() {
    assert_eq!(guard_of(UNSET), None);
    assert_eq!(guard_of(0), Some(0));
    assert_eq!(guard_of(42), Some(42));
}
