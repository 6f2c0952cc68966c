use vault_tasks_time_management::duration::{Duration, NANOS_PER_SEC};
use vault_tasks_time_management::State;

#[test]
fn a_second_is_a_billion_nanoseconds() {
    assert_eq!(NANOS_PER_SEC, 1_000_000_000);
    assert_eq!(Duration::from_secs(0), Duration { nanos: 0 });
    assert_eq!(Duration::from_secs(1), Duration { nanos: 1_000_000_000 });
    assert_eq!(Duration::from_secs(1_500), Duration { nanos: 1_500_000_000_000 });
    assert_eq!(
        Duration::from_secs(u64::MAX),
        Duration { nanos: 18_446_744_073_709_551_615_000_000_000 }
    );
}

#[test]
fn default_duration_is_empty() {
    assert_eq!(Duration::default(), Duration { nanos: 0 });
    assert_eq!(Duration::default(), Duration::from_secs(0));
}

#[test]
fn division_rounds_down() {
    assert_eq!(Duration::from_secs(25) / 5, Duration::from_secs(5));
    assert_eq!(Duration::from_secs(1) / 2, Duration { nanos: 500_000_000 });
    assert_eq!(Duration::from_secs(1) / 3, Duration { nanos: 333_333_333 });
    assert_eq!(Duration { nanos: 2 } / 3, Duration { nanos: 0 });
    assert_eq!(Duration { nanos: 3 } / 3, Duration { nanos: 1 });
    assert_eq!(Duration { nanos: 7 } / 1, Duration { nanos: 7 });
    assert_eq!(Duration { nanos: 0 } / u32::MAX, Duration { nanos: 0 });
    assert_eq!(
        Duration { nanos: u128::MAX } / u32::MAX,
        Duration { nanos: u128::MAX / 4_294_967_295 }
    );
}

#[test]
fn durations_are_ordered_by_length() {
    assert!(Duration::from_secs(1) < Duration::from_secs(2));
    assert!(Duration { nanos: 999_999_999 } < Duration::from_secs(1));
    assert!(Duration::from_secs(1) <= Duration { nanos: 1_000_000_000 });
    assert_ne!(Duration::from_secs(1), Duration { nanos: 1 });
}

#[test]
fn phase_hands_out_the_target_it_carries() {
    let target = Some(Duration::from_secs(300));
    assert_eq!(State::Focus(target).duration(), target);
    assert_eq!(State::Break(target).duration(), target);
    assert_eq!(State::Focus(None).duration(), None);
    assert_eq!(State::Break(None).duration(), None);
    assert_ne!(State::Focus(target), State::Break(target));
}
