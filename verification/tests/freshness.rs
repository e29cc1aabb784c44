use pipeline_trigger::clock::{window_length, Timestamp};
use pipeline_trigger::commit::Commit;

const TWO_WEEKS_SECS: i64 = 2 * 604_800;

fn commit_at(secs: i64, nanos: u32) -> Commit {
    Commit { id: "4f2a9c1".to_string(), committed_date: Timestamp { secs, nanos } }
}

#[test]
fn window_of_two_weeks_in_nanoseconds() {
    assert_eq!(window_length(2), 1_209_600_000_000_000i128);
    assert_eq!(window_length(1), 604_800_000_000_000i128);
    assert_eq!(window_length(0), 0);
    assert_eq!(window_length(-1), -604_800_000_000_000i128);
}

#[test]
fn window_of_extreme_widths_does_not_overflow() {
    assert_eq!(window_length(i64::MAX), (i64::MAX as i128) * 604_800 * 1_000_000_000);
    assert_eq!(window_length(i64::MIN), (i64::MIN as i128) * 604_800 * 1_000_000_000);
}

#[test]
fn elapsed_time_is_exact_to_the_nanosecond() {
    let then = Timestamp { secs: 100, nanos: 900_000_000 };
    let later = Timestamp { secs: 102, nanos: 100_000_000 };
    assert_eq!(then.nanos_until(later), 1_200_000_000);
    assert_eq!(later.nanos_until(then), -1_200_000_000);
    assert_eq!(then.nanos_until(then), 0);
}

#[test]
fn elapsed_time_between_the_extremes_does_not_overflow() {
    let first = Timestamp { secs: i64::MIN, nanos: u32::MAX };
    let last = Timestamp { secs: i64::MAX, nanos: 0 };
    let expected = (i64::MAX as i128 - i64::MIN as i128) * 1_000_000_000 - u32::MAX as i128;
    assert_eq!(first.nanos_until(last), expected);
}

#[test]
fn commit_one_nanosecond_inside_the_window_is_recent() {
    let commit = commit_at(1_700_000_000, 0);
    let now = Timestamp { secs: 1_700_000_000 + TWO_WEEKS_SECS - 1, nanos: 999_999_999 };
    assert!(commit.is_recent_at(now, 2));
}

#[test]
fn commit_exactly_as_old_as_the_window_is_not_recent() {
    let commit = commit_at(1_700_000_000, 250);
    let now = Timestamp { secs: 1_700_000_000 + TWO_WEEKS_SECS, nanos: 250 };
    assert!(!commit.is_recent_at(now, 2));
}

#[test]
fn commit_older_than_the_window_is_not_recent() {
    let commit = commit_at(1_700_000_000, 0);
    let now = Timestamp { secs: 1_700_000_000 + TWO_WEEKS_SECS, nanos: 1 };
    assert!(!commit.is_recent_at(now, 2));
    let much_later = Timestamp { secs: 1_700_000_000 + 10 * TWO_WEEKS_SECS, nanos: 0 };
    assert!(!commit.is_recent_at(much_later, 2));
}

#[test]
fn commit_made_just_now_is_recent() {
    let commit = commit_at(1_700_000_000, 0);
    let now = Timestamp { secs: 1_700_000_000, nanos: 1 };
    assert!(commit.is_recent_at(now, 2));
}

#[test]
fn commit_dated_after_now_is_recent_under_a_positive_window() {
    let commit = commit_at(1_700_000_500, 0);
    let now = Timestamp { secs: 1_700_000_000, nanos: 0 };
    assert!(commit.is_recent_at(now, 1));
}

#[test]
fn window_of_no_width_holds_only_commits_dated_after_now() {
    let now = Timestamp { secs: 1_700_000_000, nanos: 0 };
    assert!(!commit_at(1_700_000_000, 0).is_recent_at(now, 0));
    assert!(!commit_at(1_699_999_999, 999_999_999).is_recent_at(now, 0));
    assert!(commit_at(1_700_000_000, 1).is_recent_at(now, 0));
}

#[test]
fn wider_window_keeps_what_a_narrower_one_holds() {
    let commit = commit_at(1_700_000_000, 0);
    let now = Timestamp { secs: 1_700_000_000 + 604_800 + 5, nanos: 0 };
    assert!(!commit.is_recent_at(now, 1));
    assert!(commit.is_recent_at(now, 2));
    assert!(commit.is_recent_at(now, 3));
}

#[test]
fn commit_before_the_epoch_is_judged_like_any_other() {
    let commit = commit_at(-1_000, 500_000_000);
    let inside = Timestamp { secs: -1_000 + TWO_WEEKS_SECS, nanos: 499_999_999 };
    let outside = Timestamp { secs: -1_000 + TWO_WEEKS_SECS, nanos: 500_000_000 };
    assert!(commit.is_recent_at(inside, 2));
    assert!(!commit.is_recent_at(outside, 2));
}

#[test]
fn extreme_windows_and_instants_are_judged_without_overflow() {
    let oldest = commit_at(i64::MIN, 0);
    let newest = Timestamp { secs: i64::MAX, nanos: 999_999_999 };
    assert!(!oldest.is_recent_at(newest, 2));
    assert!(oldest.is_recent_at(newest, i64::MAX));
    assert!(!oldest.is_recent_at(newest, i64::MIN));
}

#[test]
fn commit_from_long_ago_is_not_recent_by_the_clock() {
    let commit = commit_at(0, 0);
    assert!(!commit.is_recent(2));
}

#[test]
fn commit_made_a_moment_ago_is_recent_by_the_clock() {
    let moment = chrono::Utc::now();
    let commit = commit_at(moment.timestamp() - 60, moment.timestamp_subsec_nanos());
    assert!(commit.is_recent(2));
    assert!(!commit.is_recent(0));
}

#[test]
fn commit_just_outside_the_window_is_not_recent_by_the_clock() {
    let moment = chrono::Utc::now();
    let commit = commit_at(moment.timestamp() - TWO_WEEKS_SECS - 60, 0);
    assert!(!commit.is_recent(2));
    assert!(commit.is_recent(3));
}
