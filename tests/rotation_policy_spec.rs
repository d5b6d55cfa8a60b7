use chrono::{Local, TimeZone};
use jon_listen::settings::{RotationPolicyConfig, RotationPolicyType};
use jon_listen::writer::rotation_policy::{
    Instant, RotationByDay, RotationByDuration, RotationPolicy, MILLIS_PER_DAY,
};

/// The instant at which the local clock shows the given date and time.
fn at(y: i32, mo: u32, d: u32, h: u32, mi: u32, s: u32) -> Instant {
    let t = Local.with_ymd_and_hms(y, mo, d, h, mi, s).single().unwrap();
    Instant::from_millis(t.timestamp_millis())
}

#[test]
fn test_rotation_by_duration_new() {
    let policy = RotationByDuration::new(3600);
    assert_eq!(policy.next_rotation(at(2024, 1, 1, 12, 0, 0)), Some(at(2024, 1, 1, 13, 0, 0)));
}

#[test]
fn test_rotation_by_duration_next_rotation() {
    let policy = RotationByDuration::new(3600);
    assert_eq!(policy.next_rotation(at(2024, 1, 1, 12, 0, 0)), Some(at(2024, 1, 1, 13, 0, 0)));
}

#[test]
fn test_rotation_by_duration_various_durations() {
    let last = at(2024, 1, 1, 12, 0, 0);
    assert_eq!(RotationByDuration::new(1800).next_rotation(last), Some(at(2024, 1, 1, 12, 30, 0)));
    assert_eq!(RotationByDuration::new(86400).next_rotation(last), Some(at(2024, 1, 2, 12, 0, 0)));
    assert_eq!(RotationByDuration::new(1).next_rotation(last), Some(at(2024, 1, 1, 12, 0, 1)));
}

#[test]
fn test_rotation_by_duration_day_boundary() {
    let policy = RotationByDuration::new(3600);
    assert_eq!(policy.next_rotation(at(2024, 1, 1, 23, 30, 0)), Some(at(2024, 1, 2, 0, 30, 0)));
}

#[test]
fn test_rotation_by_day_new() {
    let policy = RotationByDay::new();
    assert_eq!(policy.next_rotation(at(2024, 1, 1, 12, 0, 0)), Some(at(2024, 1, 2, 0, 0, 0)));
}

#[test]
fn test_rotation_by_day_default() {
    let policy = RotationByDay::default();
    assert_eq!(policy.next_rotation(at(2024, 1, 1, 12, 0, 0)), Some(at(2024, 1, 2, 0, 0, 0)));
}

#[test]
fn test_rotation_by_day_next_rotation_midday() {
    let policy = RotationByDay::new();
    assert_eq!(policy.next_rotation(at(2024, 1, 1, 12, 30, 45)), Some(at(2024, 1, 2, 0, 0, 0)));
}

#[test]
fn test_rotation_by_day_next_rotation_just_before_midnight() {
    let policy = RotationByDay::new();
    assert_eq!(policy.next_rotation(at(2024, 1, 1, 23, 59, 59)), Some(at(2024, 1, 2, 0, 0, 0)));
}

#[test]
fn test_rotation_by_day_next_rotation_at_midnight() {
    let policy = RotationByDay::new();
    assert_eq!(policy.next_rotation(at(2024, 1, 1, 0, 0, 0)), Some(at(2024, 1, 2, 0, 0, 0)));
}

#[test]
fn test_rotation_by_day_next_rotation_just_after_midnight() {
    let policy = RotationByDay::new();
    assert_eq!(policy.next_rotation(at(2024, 1, 2, 0, 0, 1)), Some(at(2024, 1, 3, 0, 0, 0)));
}

#[test]
fn test_rotation_by_day_month_boundary() {
    let policy = RotationByDay::new();
    assert_eq!(policy.next_rotation(at(2024, 1, 31, 12, 0, 0)), Some(at(2024, 2, 1, 0, 0, 0)));
}

#[test]
fn test_rotation_by_day_year_boundary() {
    let policy = RotationByDay::new();
    assert_eq!(policy.next_rotation(at(2023, 12, 31, 12, 0, 0)), Some(at(2024, 1, 1, 0, 0, 0)));
}

#[test]
fn test_rotation_by_day_leap_year() {
    let policy = RotationByDay::new();
    assert_eq!(policy.next_rotation(at(2024, 2, 28, 12, 0, 0)), Some(at(2024, 2, 29, 0, 0, 0)));
    assert_eq!(policy.next_rotation(at(2024, 2, 29, 12, 0, 0)), Some(at(2024, 3, 1, 0, 0, 0)));
}

#[test]
fn test_rotation_by_day_non_leap_year() {
    let policy = RotationByDay::new();
    assert_eq!(policy.next_rotation(at(2023, 2, 28, 12, 0, 0)), Some(at(2023, 3, 1, 0, 0, 0)));
}

#[test]
fn test_rotation_policy_trait_rotation_by_duration() {
    let policy = RotationPolicy::ByDuration(RotationByDuration::new(3600));
    assert_eq!(policy.next_rotation(at(2024, 1, 1, 12, 0, 0)), Some(at(2024, 1, 1, 13, 0, 0)));
}

#[test]
fn test_rotation_policy_trait_rotation_by_day() {
    let policy = RotationPolicy::ByDay(RotationByDay::new());
    assert_eq!(policy.next_rotation(at(2024, 1, 1, 12, 0, 0)), Some(at(2024, 1, 2, 0, 0, 0)));
}

#[test]
fn duration_rotation_is_exact_to_the_millisecond() {
    let policy = RotationByDuration::new(7);
    assert_eq!(
        policy.next_rotation(Instant::from_millis(1_000_123)),
        Some(Instant::from_millis(1_007_123))
    );
    assert_eq!(
        policy.next_rotation(Instant::from_millis(-5_000)),
        Some(Instant::from_millis(2_000))
    );
}

#[test]
fn duration_rotation_past_the_end_of_time_is_none() {
    let policy = RotationByDuration::new(1);
    assert_eq!(policy.next_rotation(Instant::from_millis(i64::MAX - 10)), None);
    assert_eq!(RotationByDuration::new(u64::MAX).next_rotation(Instant::from_millis(0)), None);
}

#[test]
fn next_local_midnight_with_fixed_offsets() {
    // UTC, 12:00 on day 10 -> 00:00 on day 11.
    let noon = Instant::from_millis(10 * MILLIS_PER_DAY + MILLIS_PER_DAY / 2);
    assert_eq!(
        RotationByDay::next_local_midnight(noon, 0, 0),
        Some(Instant::from_millis(11 * MILLIS_PER_DAY))
    );
    // Exactly at midnight the next one is a full day later.
    let midnight = Instant::from_millis(11 * MILLIS_PER_DAY);
    assert_eq!(
        RotationByDay::next_local_midnight(midnight, 0, 0),
        Some(Instant::from_millis(12 * MILLIS_PER_DAY))
    );
    // Two hours east of UTC: 23:00 UTC is already 01:00 local on the next day.
    let late = Instant::from_millis(11 * MILLIS_PER_DAY - 3_600_000);
    assert_eq!(
        RotationByDay::next_local_midnight(late, 7200, 7200),
        Some(Instant::from_millis(12 * MILLIS_PER_DAY - 7_200_000))
    );
    // Before the epoch.
    let before = Instant::from_millis(-1);
    assert_eq!(RotationByDay::next_local_midnight(before, 0, 0), Some(Instant::from_millis(0)));
}

#[test]
fn next_local_midnight_across_a_clock_change() {
    // At 22:00 local under +1h, with midnight under +2h: due one hour later.
    let t = Instant::from_millis(5 * MILLIS_PER_DAY + 21 * 3_600_000);
    let next = RotationByDay::next_local_midnight(t, 3600, 7200).unwrap();
    assert!(next.millis > t.millis);
    assert_eq!((next.millis + 7_200_000) % MILLIS_PER_DAY, 0);
    assert_eq!(next.millis - t.millis, 3_600_000);
    // An offset that would put the midnight before the previous rotation is refused.
    let just_before = Instant::from_millis(6 * MILLIS_PER_DAY - 1_000);
    assert_eq!(RotationByDay::next_local_midnight(just_before, 0, 3600), None);
}

#[test]
fn day_rotation_is_after_and_within_a_day() {
    let policy = RotationByDay::new();
    let last = at(2024, 6, 15, 8, 45, 0);
    let next = policy.next_rotation(last).unwrap();
    assert!(next.millis > last.millis);
    assert!(next.millis - last.millis <= MILLIS_PER_DAY + 3_600_000);
}

#[test]
fn rotation_config_builds_the_schedule() {
    let by_duration = RotationPolicyConfig {
        count: 3,
        policy: RotationPolicyType::ByDuration,
        duration: Some(60),
    };
    assert_eq!(
        by_duration.to_policy(),
        Some(RotationPolicy::ByDuration(RotationByDuration::new(60)))
    );
    let missing = RotationPolicyConfig {
        count: 3,
        policy: RotationPolicyType::ByDuration,
        duration: None,
    };
    assert_eq!(missing.to_policy(), None);
    let zero = RotationPolicyConfig {
        count: 3,
        policy: RotationPolicyType::ByDuration,
        duration: Some(0),
    };
    assert_eq!(zero.to_policy(), None);
    let by_day = RotationPolicyConfig { count: 3, policy: RotationPolicyType::ByDay, duration: None };
    assert_eq!(by_day.to_policy(), Some(RotationPolicy::ByDay(RotationByDay::new())));
}
