use stealthy_usage_monitor::calendar::{
    claude_pace_windows, days_from_civil, local_day_number, local_utc_offset_secs,
    remaining_in_window, week_blocks, week_markers, weekday_of, LocalTime, SESSION_WINDOW_NANOS,
    WEEKLY_WINDOW_NANOS,
};
use stealthy_usage_monitor::models::{AppUsageData, Moment, UsageData, UsageSection};

const SECOND: i128 = 1_000_000_000;
const DAY: i128 = 86_400 * SECOND;

fn at(nanos: i128) -> Moment {
    Moment { nanos }
}

fn leap(y: i64) -> bool {
    y % 4 == 0 && (y % 100 != 0 || y % 400 == 0)
}

#[test]
fn days_are_counted_one_by_one() {
    let mut day = days_from_civil(-801, 1, 1);
    for y in -801..=2801i64 {
        for m in 1..=12i64 {
            let length = match m {
                2 => 28 + leap(y) as i64,
                4 | 6 | 9 | 11 => 30,
                _ => 31,
            };
            for d in 1..=length {
                assert_eq!(days_from_civil(y, m, d), day, "{y}-{m}-{d}");
                day += 1;
            }
        }
    }
    assert_eq!(days_from_civil(1970, 1, 1), 0);
    assert_eq!(days_from_civil(2000, 3, 1), 11_017);
    assert_eq!(days_from_civil(1969, 12, 31), -1);
    assert_eq!(days_from_civil(1970, 1, i64::MAX), i64::MAX - 1);
    let far = 400 * 1_000_000_000_000;
    assert_eq!(days_from_civil(1970 + far, 1, 1), 146_097 * 1_000_000_000_000);
}

#[test]
fn weekdays_follow_each_other() {
    assert_eq!(weekday_of(0), 4);
    assert_eq!(weekday_of(3), 0);
    assert_eq!(weekday_of(-1), 3);
    assert_eq!(weekday_of(-11), 0);
}

#[test]
fn offsets_are_whole_minutes() {
    let local = LocalTime { year: 1970, month: 1, day: 1, hour: 2, minute: 0, second: 0 };
    assert_eq!(local_utc_offset_secs(local, 0), 7_200);
    assert_eq!(local_utc_offset_secs(local, 1), 7_200);
    assert_eq!(local_utc_offset_secs(local, -1), 7_200);
    let west = LocalTime { year: 1969, month: 12, day: 31, hour: 19, minute: 0, second: 1 };
    assert_eq!(local_utc_offset_secs(west, 0), -18_000);
    for (seconds, expected) in [(29, 0), (30, 60), (31, 60), (90, 120)] {
        let local = LocalTime { year: 1970, month: 1, day: 1, hour: 1, minute: 0, second: 0 };
        assert_eq!(local_utc_offset_secs(local, 3_600 - seconds), expected);
        assert_eq!(local_utc_offset_secs(local, 3_600 + seconds), -expected);
    }
    assert_eq!(local_utc_offset_secs(local, 7_200 - i64::MAX), i64::MAX - 7);
}

#[test]
fn instants_fall_on_local_days() {
    assert_eq!(local_day_number(at(0), 0), Some(0));
    assert_eq!(local_day_number(at(0), -1), Some(-1));
    assert_eq!(local_day_number(at(DAY - 1), 0), Some(0));
    assert_eq!(local_day_number(at(DAY - 1), 1), Some(1));
    assert_eq!(local_day_number(at(-1), 0), None);
}

#[test]
fn a_saturday_reset_reads_sunday_to_saturday() {
    // Day 2 was a Saturday.
    let blocks = week_blocks(Some(at(9 * DAY)), at(5 * DAY), 0).unwrap();
    assert_eq!(blocks.days, [0, 1, 2, 3, 4, 5, 6]);
    assert_eq!(blocks.today, Some(2));
    let stale = week_blocks(Some(at(9 * DAY)), at(10 * DAY), 0).unwrap();
    assert_eq!(stale.today, None);
    let early = week_blocks(Some(at(9 * DAY)), at(2 * DAY), 0).unwrap();
    assert_eq!(early.today, None);
    assert!(week_blocks(None, at(0), 0).is_none());
    assert!(week_blocks(Some(at(-1)), at(0), 0).is_none());
}

#[test]
fn every_provider_gets_its_own_week() {
    let weekly = UsageSection { resets_at: Some(at(9 * DAY)), ..UsageSection::default() };
    let usage = UsageData { weekly, ..UsageData::default() };
    let data = AppUsageData { codex: Some(usage), ..AppUsageData::default() };
    let markers = week_markers(Some(data), at(9 * DAY), 0);
    assert!(markers.claude.is_none() && markers.antigravity.is_none());
    assert_eq!(markers.codex.unwrap().today, Some(6));
    assert!(week_markers(None, at(0), 0).codex.is_none());
}

#[test]
fn what_is_left_of_a_window_is_bounded_by_it() {
    let now = at(1_000 * SECOND);
    let window = SESSION_WINDOW_NANOS;
    assert_eq!(remaining_in_window(None, now, window), None);
    assert_eq!(remaining_in_window(Some(at(999 * SECOND)), now, window), None);
    assert_eq!(remaining_in_window(Some(now), now, window), Some(0));
    assert_eq!(
        remaining_in_window(Some(at(1_060 * SECOND)), now, window),
        Some(60 * SECOND as u128)
    );
    assert_eq!(remaining_in_window(Some(at(90 * DAY)), now, window), Some(window));
    // Moments before the epoch count as any other.
    assert_eq!(remaining_in_window(Some(at(5)), at(-7), window), Some(12));
    assert_eq!(remaining_in_window(Some(at(-5)), at(-7), window), Some(2));
    assert_eq!(remaining_in_window(Some(at(i128::MAX)), at(i128::MIN), u128::MAX), Some(u128::MAX));
}

#[test]
fn pace_is_known_where_resets_are() {
    let now = at(0);
    let session = UsageSection { resets_at: Some(at(SECOND)), ..UsageSection::default() };
    let weekly = UsageSection { resets_at: Some(at(30 * DAY)), ..UsageSection::default() };
    let usage = UsageData { session, weekly, ..UsageData::default() };
    let data = AppUsageData { claude_code: Some(usage), ..AppUsageData::default() };
    assert_eq!(
        claude_pace_windows(Some(data), now),
        (Some(SECOND as u128), Some(WEEKLY_WINDOW_NANOS))
    );
    assert_eq!(claude_pace_windows(Some(AppUsageData::default()), now), (None, None));
    assert_eq!(claude_pace_windows(None, now), (None, None));
}
