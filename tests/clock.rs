use monoclock::clock::Clock;
use monoclock::error::ClockError;
use monoclock::fidelity::Fidelity;
use monoclock::source::{nanos_from_parts, read_nanos, ClockKind, Platform};
use monoclock::state::{offset_from, ClockState, Track};

fn linux_state() -> ClockState {
    ClockState::new(Platform::Linux)
}

#[test]
fn divisor_of_each_unit() {
    assert_eq!(Fidelity::Nanos(5).divisor(), Ok(5));
    assert_eq!(Fidelity::Millis(16).divisor(), Ok(16_000_000));
    assert_eq!(Fidelity::Seconds(2).divisor(), Ok(2_000_000_000));
    assert_eq!(Fidelity::default(), Fidelity::Millis(16));
}

#[test]
fn zero_fidelity_is_invalid() {
    assert_eq!(Fidelity::Nanos(0).divisor(), Err(ClockError::InvalidFidelity));
    assert_eq!(Fidelity::Millis(0).divisor(), Err(ClockError::InvalidFidelity));
    assert_eq!(Fidelity::Seconds(0).divisor(), Err(ClockError::InvalidFidelity));
    assert!(matches!(
        Clock::from_start(Fidelity::Nanos(0), 0),
        Err(ClockError::InvalidFidelity)
    ));
}

#[test]
fn oversized_fidelity_is_invalid() {
    assert_eq!(
        Fidelity::Seconds(usize::MAX).divisor(),
        Err(ClockError::InvalidFidelity)
    );
    assert_eq!(
        Fidelity::Millis(usize::MAX).divisor(),
        Err(ClockError::InvalidFidelity)
    );
    assert_eq!(
        Fidelity::Nanos(usize::MAX).divisor(),
        Ok(usize::MAX as u64)
    );
}

#[test]
fn ticks_round_down_at_millis_16() {
    let clock = Clock::from_start(Fidelity::Millis(16), 0).unwrap();
    assert_eq!(clock.ticks_at(32_000_000), Ok(2));
    assert_eq!(clock.ticks_at(31_999_999), Ok(1));
    assert_eq!(clock.ticks_at(0), Ok(0));
}

#[test]
fn ticks_count_from_the_start() {
    let clock = Clock::from_start(Fidelity::Nanos(10), 1_000).unwrap();
    assert_eq!(clock.ticks_at(1_095), Ok(9));
    assert_eq!(clock.ticks_at(999), Err(ClockError::ClockRegression));
    assert_eq!(clock.scale(95), 9);
}

#[test]
fn rescale_keeps_the_start() {
    let mut clock = Clock::from_start(Fidelity::Millis(16), 0).unwrap();
    assert_eq!(clock.ticks_at(100_000_000), Ok(6));
    assert_eq!(clock.sweep(Fidelity::Seconds(1)), Ok(()));
    assert_eq!(clock.ticks_at(100_000_000), Ok(0));
    assert_eq!(clock.started_at(), 0);
    assert_eq!(clock.fidelity(), Fidelity::Seconds(1));
}

#[test]
fn rescale_refuses_zero() {
    let mut clock = Clock::from_start(Fidelity::Millis(16), 0).unwrap();
    assert_eq!(clock.sweep(Fidelity::Millis(0)), Err(ClockError::InvalidFidelity));
    assert_eq!(clock.fidelity(), Fidelity::Millis(16));
    assert_eq!(clock.ticks_at(32_000_000), Ok(2));
}

#[test]
fn stop_freezes_ticks() {
    let mut clock = Clock::from_start(Fidelity::Nanos(1), 100).unwrap();
    assert_eq!(clock.stop_at(150), Ok(()));
    assert_eq!(clock.stopped_at(), Some(150));
    assert_eq!(clock.ticks_at(150), Ok(50));
    assert_eq!(clock.ticks_at(10_000), Ok(50));
    assert_eq!(clock.ticks_at(0), Ok(50));
    assert_eq!(clock.stop_at(900), Ok(()));
    assert_eq!(clock.stopped_at(), Some(150));
}

#[test]
fn stop_before_start_is_regression() {
    let mut clock = Clock::from_start(Fidelity::Nanos(1), 100).unwrap();
    assert_eq!(clock.stop_at(99), Err(ClockError::ClockRegression));
    assert_eq!(clock.stopped_at(), None);
}

#[test]
fn stopped_clock_reads_nothing() {
    let mut state = linux_state();
    let mut clock = Clock::new(Fidelity::Nanos(1), &mut state).unwrap();
    clock.stop(&mut state).unwrap();
    let last = state.guard(ClockKind::Monotonic);
    let first = clock.tick(&mut state).unwrap();
    let second = clock.tick(&mut state).unwrap();
    assert_eq!(first, second);
    assert_eq!(clock.stop(&mut state), Ok(()));
    assert_eq!(clock.tick(&mut state), Ok(first));
    assert_eq!(state.guard(ClockKind::Monotonic), last);
}

#[test]
fn baseline_after_elapsed_is_invalid() {
    assert_eq!(offset_from(10, 11), Err(ClockError::InvalidBaseline));
    assert_eq!(offset_from(10, 10), Ok(0));
    assert_eq!(offset_from(10, 4), Ok(6));
    let mut state = linux_state();
    assert_eq!(state.elapsed_since(u64::MAX), Err(ClockError::InvalidBaseline));
    assert_eq!(state.elapsed_since(0).map(|_| ()), Ok(()));
}

#[test]
fn track_refuses_regression() {
    let mut track = Track::new();
    assert_eq!(track.elapsed(), None);
    assert_eq!(track.observe(5), Ok(5));
    assert_eq!(track.observe(7), Ok(7));
    assert_eq!(track.observe(7), Ok(7));
    assert_eq!(track.observe(6), Err(ClockError::ClockRegression));
    assert_eq!(track.last(), Some(7));
    assert_eq!(track.observe(10), Ok(10));
    assert_eq!(track.guard(), Some(5));
    assert_eq!(track.elapsed(), Some(5));
}

#[test]
fn guard_is_the_first_reading() {
    let mut track = Track::new();
    assert_eq!(track.observe(0), Ok(0));
    assert_eq!(track.guard(), Some(0));
    assert_eq!(track.observe(40), Ok(40));
    assert_eq!(track.guard(), Some(0));
    assert_eq!(track.elapsed(), Some(40));
}

#[test]
fn repeated_create_keeps_guard() {
    let mut state = linux_state();
    let first = Clock::new(Fidelity::Millis(16), &mut state).unwrap();
    let guard = state.guard(ClockKind::Monotonic);
    assert_eq!(guard, Some(first.started_at()));
    for _ in 0..5 {
        let clock = Clock::new(Fidelity::Nanos(1), &mut state).unwrap();
        assert!(clock.started_at() >= first.started_at());
        assert_eq!(state.guard(ClockKind::Monotonic), guard);
    }
    let since_start = first.real_tick(&mut state).unwrap();
    let mut later = Clock::new(Fidelity::Nanos(1), &mut state).unwrap();
    later.stop(&mut state).unwrap();
    assert!(later.stopped_at().unwrap() - guard.unwrap() >= since_start * 16_000_000);
}

#[test]
fn monotonic_observations_never_decrease() {
    let mut state = linux_state();
    let mut previous = state.observe_monotonic().unwrap();
    for _ in 0..100 {
        let next = state.observe_monotonic().unwrap();
        assert!(next >= previous);
        previous = next;
    }
    let real = state.observe_real().unwrap();
    assert!(real > 0);
    assert_eq!(state.guard(ClockKind::Real), Some(real));
}

#[test]
fn running_ticks_follow_the_clock() {
    let mut state = linux_state();
    let clock = Clock::new(Fidelity::Nanos(1), &mut state).unwrap();
    let a = clock.tick(&mut state).unwrap();
    let b = clock.tick(&mut state).unwrap();
    assert!(b >= a);
    assert_eq!(clock.stopped_at(), None);
    assert!(matches!(
        Clock::new(Fidelity::Seconds(0), &mut state),
        Err(ClockError::InvalidFidelity)
    ));
}

#[test]
fn platform_from_identifier() {
    assert_eq!(Platform::from_os("linux"), Ok(Platform::Linux));
    assert_eq!(Platform::from_os("windows"), Err(ClockError::UnsupportedPlatform));
    assert_eq!(Platform::from_os("linu"), Err(ClockError::UnsupportedPlatform));
    assert_eq!(Platform::from_os("linux2"), Err(ClockError::UnsupportedPlatform));
    assert_eq!(Platform::from_os(""), Err(ClockError::UnsupportedPlatform));
}

#[test]
fn nanos_from_parts_combines() {
    assert_eq!(nanos_from_parts(2, 5), Ok(2_000_000_005));
    assert_eq!(nanos_from_parts(0, 999_999_999), Ok(999_999_999));
    assert_eq!(nanos_from_parts(-1, 0), Err(ClockError::ClockUnavailable));
    assert_eq!(nanos_from_parts(0, -1), Err(ClockError::ClockUnavailable));
    assert_eq!(nanos_from_parts(0, 1_000_000_000), Err(ClockError::ClockUnavailable));
    assert_eq!(nanos_from_parts(i64::MAX, 0), Err(ClockError::ClockUnavailable));
    assert_eq!(
        nanos_from_parts(18_446_744_073, 709_551_615),
        Ok(u64::MAX)
    );
    assert_eq!(
        nanos_from_parts(18_446_744_073, 709_551_616),
        Err(ClockError::ClockUnavailable)
    );
}

#[test]
fn both_clocks_can_be_read() {
    let mono = read_nanos(Platform::Linux, ClockKind::Monotonic).unwrap();
    let real = read_nanos(Platform::Linux, ClockKind::Real).unwrap();
    assert!(mono > 0);
    assert!(real > 1_500_000_000_000_000_000);
}

#[test]
fn valid_fidelity_never_gives_invalid_fidelity() {
    let mut state = linux_state();
    for f in [Fidelity::Nanos(1), Fidelity::Millis(16), Fidelity::Seconds(3)] {
        match Clock::new(f, &mut state) {
            Ok(clock) => assert_eq!(clock.fidelity(), f),
            Err(e) => assert!(matches!(
                e,
                ClockError::ClockUnavailable | ClockError::ClockRegression
            )),
        }
    }
}
