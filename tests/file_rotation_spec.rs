use jon_listen::writer::file_rotation::{
    self, is_older, next_path, oldest_sibling, parse_trailing_id, rotation_target,
    RotationScheduler, SchedulerAction, Sibling, RETRY_DELAY_MILLIS,
};
use jon_listen::metrics::{MetricName, MetricUpdate};
use jon_listen::writer::rotation_policy::{Instant, RotationByDuration, RotationPolicy};

fn sib(path: &str, modified_nanos: i128) -> Sibling {
    Sibling { path: path.to_string(), modified_nanos }
}

#[test]
fn test_next_path_no_existing_files() {
    let files: Vec<String> = vec![];
    let next = next_path("/tmp/dir/test.log", &files);
    assert!(next.ends_with(".0"));
    assert_eq!(next, "/tmp/dir/test.log.0");
}

#[test]
fn test_next_path_with_existing_files() {
    let files = vec![
        "/tmp/dir/test.log.0".to_string(),
        "/tmp/dir/test.log.1".to_string(),
        "/tmp/dir/test.log.5".to_string(),
    ];
    let next = next_path("/tmp/dir/test.log", &files);
    // Should be .6 (next after .5)
    assert!(next.ends_with(".6"));
    assert_eq!(next, "/tmp/dir/test.log.6");
}

#[test]
fn test_next_path_sequential_ids() {
    let files = vec![
        "/tmp/dir/test.log.0".to_string(),
        "/tmp/dir/test.log.1".to_string(),
        "/tmp/dir/test.log.2".to_string(),
    ];
    let next = next_path("/tmp/dir/test.log", &files);
    assert!(next.ends_with(".3"));
}

#[test]
fn test_next_path_no_numeric_suffix() {
    // Files without numeric suffix should be ignored
    let files = vec!["/tmp/dir/test.log".to_string(), "/tmp/dir/test.log.backup".to_string()];
    let next = next_path("/tmp/dir/test.log", &files);
    assert!(next.ends_with(".0"));
}

#[test]
fn next_path_reads_every_trailing_digit() {
    let files = vec!["/d/log.12".to_string(), "/d/log.9".to_string()];
    assert_eq!(next_path("/d/log", &files), "/d/log.13");
    let files = vec!["/d/log.2147483647".to_string()];
    assert_eq!(next_path("/d/log", &files), "/d/log.2147483648");
    // An id too large to read is skipped.
    let files = vec!["/d/log.99999999999".to_string(), "/d/log.4".to_string()];
    assert_eq!(next_path("/d/log", &files), "/d/log.5");
}

#[test]
fn trailing_ids_parse_as_decimal() {
    assert_eq!(parse_trailing_id("log.0"), Some(0));
    assert_eq!(parse_trailing_id("log.0042"), Some(42));
    assert_eq!(parse_trailing_id("log.2147483647"), Some(2147483647));
    assert_eq!(parse_trailing_id("log.2147483648"), None);
    assert_eq!(parse_trailing_id("log"), None);
    assert_eq!(parse_trailing_id(""), None);
    assert_eq!(parse_trailing_id("123"), Some(123));
}

#[test]
fn test_oldest_file_selects_correctly() {
    let files = vec![
        sib("/d/test.log.1", 100),
        sib("/d/test.log.2", 200),
        sib("/d/test.log.3", 300),
    ];
    let oldest = oldest_sibling("/d/test.log", &files).unwrap();
    assert!(files[oldest].path.ends_with("test.log.1"));
}

#[test]
fn test_oldest_file_empty_list() {
    let files: Vec<Sibling> = vec![];
    assert_eq!(oldest_sibling("/d/test.log", &files), None);
    // At the limit with nothing to reclaim, the default slot is used.
    assert_eq!(rotation_target("/d/test.log", &files, 0), "/d/test.log.0");
}

#[test]
fn oldest_ties_break_by_id_then_name() {
    let files = vec![sib("/d/log.7", 50), sib("/d/log.3", 50), sib("/d/log.9", 60)];
    assert_eq!(oldest_sibling("/d/log", &files), Some(1));
    let files = vec![sib("/d/log.b", 50), sib("/d/log.a", 50)];
    assert_eq!(oldest_sibling("/d/log", &files), Some(1));
    let files = vec![sib("/d/log.x", 50), sib("/d/log.8", 50)];
    assert_eq!(oldest_sibling("/d/log", &files), Some(1));
    assert!(is_older(&sib("/d/log.1", 10), &sib("/d/log.0", 11)));
    assert!(!is_older(&sib("/d/log.1", 10), &sib("/d/log.1", 10)));
}

#[test]
fn oldest_never_picks_the_live_file() {
    let files = vec![sib("/d/log", 1), sib("/d/log.4", 9)];
    assert_eq!(oldest_sibling("/d/log", &files), Some(1));
    let files = vec![sib("/d/log", 1)];
    assert_eq!(oldest_sibling("/d/log", &files), None);
}

#[test]
fn test_request_rotate_when_max_files_reached() {
    let files = vec![sib("/d/log.0", 300), sib("/d/log.1", 100), sib("/d/log.2", 200)];
    // At the limit: reclaim the oldest.
    assert_eq!(rotation_target("/d/log", &files, 3), "/d/log.1");
    // Below the limit: a fresh id.
    assert_eq!(rotation_target("/d/log", &files, 4), "/d/log.3");
}

#[test]
fn five_rotations_keep_three_siblings() {
    // Each rotation renames the live file onto the target, stamping it with the
    // current time.
    let live = "/d/app.log";
    let mut siblings: Vec<Sibling> = vec![];
    for step in 0..5i128 {
        let target = rotation_target(live, &siblings, 3);
        siblings.retain(|s| s.path != target);
        siblings.push(Sibling { path: target, modified_nanos: step });
        assert_eq!(siblings.len(), std::cmp::min(step as usize + 1, 3));
    }
    let mut names: Vec<String> = siblings.iter().map(|s| s.path.clone()).collect();
    names.sort();
    assert_eq!(names, vec!["/d/app.log.0", "/d/app.log.1", "/d/app.log.2"]);
    // The most recently modified sibling is the last rotation's target.
    let newest = siblings.iter().max_by_key(|s| s.modified_nanos).unwrap();
    assert_eq!(newest.path, "/d/app.log.1");
}

#[test]
fn scheduler_sleeps_then_rotates_by_duration() {
    let policy = RotationPolicy::ByDuration(RotationByDuration::new(1));
    let mut scheduler = RotationScheduler::new(policy, Instant::from_millis(10_000));
    assert_eq!(
        scheduler.next_action(Instant::from_millis(10_200)),
        SchedulerAction::SleepUntil(Instant::from_millis(11_000))
    );
    assert_eq!(scheduler.next_action(Instant::from_millis(11_000)), SchedulerAction::Rotate);
    scheduler.rotation_sent(Instant::from_millis(11_004));
    assert_eq!(scheduler.last_rotation, Instant::from_millis(11_004));
    assert_eq!(
        scheduler.next_action(Instant::from_millis(11_010)),
        SchedulerAction::SleepUntil(Instant::from_millis(12_004))
    );
}

#[test]
fn rotating_every_second_for_three_and_a_half_seconds() {
    let policy = RotationPolicy::ByDuration(RotationByDuration::new(1));
    let mut scheduler = RotationScheduler::new(policy, Instant::from_millis(0));
    let mut rotations = 0;
    let mut now = 0i64;
    while now <= 3_500 {
        match scheduler.next_action(Instant::from_millis(now)) {
            SchedulerAction::Rotate => {
                rotations += 1;
                scheduler.rotation_sent(Instant::from_millis(now));
            }
            SchedulerAction::SleepUntil(t) => now = t.millis,
            SchedulerAction::RetryAfter(_) => panic!("unexpected retry"),
        }
    }
    assert!((3..=4).contains(&rotations));
}

#[test]
fn scheduler_retries_when_the_due_time_is_unknown() {
    assert_eq!(
        RotationScheduler::decide(None, Instant::from_millis(5)),
        SchedulerAction::RetryAfter(RETRY_DELAY_MILLIS)
    );
    assert_eq!(RETRY_DELAY_MILLIS, 1000);
    let policy = RotationPolicy::ByDuration(RotationByDuration::new(1));
    let scheduler = RotationScheduler::new(policy, Instant::from_millis(i64::MAX - 1));
    assert_eq!(
        scheduler.next_action(Instant::from_millis(0)),
        SchedulerAction::RetryAfter(1000)
    );
}

#[test]
fn rotation_metrics() {
    assert_eq!(file_rotation::event(), MetricUpdate::Counter(MetricName::FileRotationEvents, 1));
    assert_eq!(file_rotation::error(), MetricUpdate::Counter(MetricName::FileRotationErrors, 1));
}
