//! Civil dates, weekdays and the blocks of the weekly window.
use crate::models::{AppUsageData, Moment, UsageData};
use vstd::prelude::*;

verus! {

pub const SESSION_WINDOW_NANOS: u128 = 18_000_000_000_000;

pub const WEEKLY_WINDOW_NANOS: u128 = 604_800_000_000_000;

pub open spec fn leap(y: int) -> bool {
    y % 4 == 0 && (y % 100 != 0 || y % 400 == 0)
}

pub open spec fn month_length(y: int, m: int) -> int {
    if m == 2 {
        if leap(y) {
            29
        } else {
            28
        }
    } else if m == 4 || m == 6 || m == 9 || m == 11 {
        30
    } else {
        31
    }
}

/// Days of year `y` before its month `m`.
pub open spec fn days_before_month(y: int, m: int) -> int
    decreases m,
{
    if m <= 1 {
        0
    } else {
        days_before_month(y, m - 1) + month_length(y, m - 1)
    }
}

/// Days from the start of year 1 to the start of year `y`: 365 each, one more
/// for every leap year in between.
pub open spec fn days_before_year(y: int) -> int {
    365 * (y - 1) + (y - 1) / 4 - (y - 1) / 100 + (y - 1) / 400
}

/// Days from 1970-01-01 to a date of the Gregorian calendar.
pub open spec fn day_number(y: int, m: int, d: int) -> int {
    days_before_year(y) + days_before_month(y, m) + d - 1 - days_before_year(1970)
}

pub open spec fn valid_date(y: int, m: int, d: int) -> bool {
    1 <= m <= 12 && 1 <= d <= month_length(y, m)
}

/// The day after a date.
pub open spec fn next_date(y: int, m: int, d: int) -> (int, int, int) {
    if d < month_length(y, m) {
        (y, m, d + 1)
    } else if m < 12 {
        (y, m + 1, 1)
    } else {
        (y + 1, 1, 1)
    }
}

/// The weekday of a day number, 0 for Sunday; day 0 was a Thursday.
pub open spec fn weekday(day: int) -> int {
    (day + 4) % 7
}

proof fn lemma_months(y: int)
    ensures
        days_before_month(y, 1) == 0,
        days_before_month(y, 2) == 31,
        forall|m: int|
            3 <= m <= 12 ==> #[trigger] days_before_month(y, m) == 59 + (if leap(y) {
                1int
            } else {
                0
            }) + (153 * (m - 3) + 2) / 5,
{
    reveal_with_fuel(days_before_month, 13);
    assert forall|m: int| 3 <= m <= 12 implies #[trigger] days_before_month(y, m) == 59 + (if leap(
        y,
    ) {
        1int
    } else {
        0
    }) + (153 * (m - 3) + 2) / 5 by {
        if m == 3 {
        } else if m == 4 {
        } else if m == 5 {
        } else if m == 6 {
        } else if m == 7 {
        } else if m == 8 {
        } else if m == 9 {
        } else if m == 10 {
        } else if m == 11 {
        } else {
        }
    }
}

/// A quotient steps up exactly at the multiples of its divisor.
proof fn lemma_step(y: int, k: int)
    requires
        k > 1,
    ensures
        y / k == (y - 1) / k + if y % k == 0 {
            1int
        } else {
            0
        },
{
    vstd::arithmetic::div_mod::lemma_fundamental_div_mod(y, k);
    let (q, r) = (y / k, y % k);
    assert(y == q * k + r) by (nonlinear_arith)
        requires
            y == k * q + r,
    ;
    if r == 0 {
        assert(y - 1 == (q - 1) * k + (k - 1)) by (nonlinear_arith)
            requires
                y == q * k + r,
                r == 0,
        ;
        vstd::arithmetic::div_mod::lemma_fundamental_div_mod_converse(y - 1, k, q - 1, k - 1);
    } else {
        vstd::arithmetic::div_mod::lemma_fundamental_div_mod_converse(y - 1, k, q, r - 1);
    }
}

proof fn lemma_centuries(y: int)
    ensures
        y % 400 == 0 ==> y % 100 == 0,
        y % 100 == 0 ==> y % 4 == 0,
{
}

proof fn lemma_year_length(y: int)
    ensures
        days_before_year(y + 1) == days_before_year(y) + if leap(y) {
            366int
        } else {
            365
        },
{
    lemma_step(y, 4);
    lemma_step(y, 100);
    lemma_step(y, 400);
    lemma_centuries(y);
}

proof fn lemma_era(y: int, era: int, yoe: int)
    requires
        y == 400 * era + yoe,
        0 <= yoe < 400,
    ensures
        era * 146097 + yoe * 365 + yoe / 4 - yoe / 100 == days_before_year(y + 1),
{
    assert(y / 4 == 100 * era + yoe / 4);
    assert(y / 100 == 4 * era + yoe / 100);
    assert(y / 400 == era);
}

/// Years that start in March count the days of a date without a case for leap
/// years.
proof fn lemma_march_years(y: int, m: int, d: int, era: int, yoe: int)
    requires
        1 <= m <= 12,
        400 * era + yoe == (if m <= 2 {
            y - 1
        } else {
            y
        }),
        0 <= yoe < 400,
    ensures
        era * 146097 + (yoe * 365 + yoe / 4 - yoe / 100 + ((153 * ((m + 9) % 12) + 2) / 5 + d - 1))
            - 719468 == day_number(y, m, d),
{
    lemma_era(400 * era + yoe, era, yoe);
    lemma_months(y);
    lemma_year_length(y);
    if m <= 2 {
        assert((m + 9) % 12 == m + 9);
    } else {
        assert((m + 9) % 12 == m - 3);
    }
}

/// Days from 1970-01-01 for a date of the Gregorian calendar, extended
/// backwards without a gap.
pub fn days_from_civil(y: i64, m: i64, d: i64) -> (days: i64)
    requires
        1 <= m <= 12,
        i64::MIN <= day_number(y as int, m as int, d as int) <= i64::MAX,
    ensures
        days == day_number(y as int, m as int, d as int),
{
    let shifted: i128 = if m <= 2 {
        y as i128 - 1
    } else {
        y as i128
    };
    let era: i128 = if shifted >= 0 {
        shifted / 400
    } else {
        -((399 - shifted) / 400)
    };
    let yoe: i128 = shifted - era * 400;
    proof {
        lemma_march_years(y as int, m as int, d as int, era as int, yoe as int);
    }
    let doy: i128 = (153 * ((m as i128 + 9) % 12) + 2) / 5 + d as i128 - 1;
    let doe: i128 = yoe * 365 + yoe / 4 - yoe / 100 + doy;
    (era * 146097 + doe - 719468) as i64
}

/// A local wall-clock reading.
#[derive(Clone, Copy, Debug, PartialEq, Eq, Structural)]
pub struct LocalTime {
    pub year: u16,
    pub month: u16,
    pub day: u16,
    pub hour: u16,
    pub minute: u16,
    pub second: u16,
}

impl LocalTime {
    /// The reading as seconds from 1970-01-01 00:00 on the same clock.
    pub open spec fn seconds(self) -> int {
        day_number(self.year as int, self.month as int, self.day as int) * 86_400 + self.hour
            * 3_600 + self.minute * 60 + self.second
    }
}

/// `v` rounded to a multiple of 60, an exact half going away from zero.
pub open spec fn to_whole_minutes(v: int) -> int {
    if v >= 0 {
        (v + 30) / 60 * 60
    } else {
        -((30 - v) / 60 * 60)
    }
}

/// Seconds the local clock runs ahead of UTC. The two readings are taken
/// moments apart and can straddle a second; real offsets are whole minutes, so
/// the rounding discards that jitter.
pub fn local_utc_offset_secs(local: LocalTime, now_unix: i64) -> (offset: i64)
    requires
        1 <= local.month <= 12,
        i64::MIN <= to_whole_minutes(local.seconds() - now_unix) <= i64::MAX,
    ensures
        offset == to_whole_minutes(local.seconds() - now_unix),
{
    proof {
        lemma_date_range(local.year as int, local.month as int, local.day as int);
    }
    let days: i64 = days_from_civil(local.year as i64, local.month as i64, local.day as i64);
    let clock: i64 = days * 86_400 + local.hour as i64 * 3_600 + local.minute as i64 * 60
        + local.second as i64;
    let diff: i128 = clock as i128 - now_unix as i128;
    if diff >= 0 {
        ((diff + 30) / 60 * 60) as i64
    } else {
        (-((30 - diff) / 60 * 60)) as i64
    }
}

proof fn lemma_date_range(y: int, m: int, d: int)
    requires
        1 <= m <= 12,
        0 <= y <= 65535,
        0 <= d <= 65535,
    ensures
        -1_000_000 <= day_number(y, m, d) <= 30_000_000,
{
    lemma_months(y);
    if m >= 3 {
        assert(days_before_month(y, m) <= 59 + 1 + (153 * 9 + 2) / 5);
    }
}

/// The local day an instant falls on, as days from 1970-01-01; none for an
/// instant before 1970.
pub open spec fn local_day(t: Moment, offset: int) -> Option<int> {
    if t.nanos < 0 {
        None
    } else {
        Some((t.nanos as int / 1_000_000_000 + offset) / 86_400)
    }
}

/// An instant and an offset whose sum of seconds stays within 64 bits.
pub open spec fn countable(t: Moment, offset: int) -> bool {
    &&& t.nanos as int / 1_000_000_000 <= i64::MAX
    &&& i64::MIN <= t.nanos as int / 1_000_000_000 + offset <= i64::MAX
}

pub fn local_day_number(t: Moment, offset: i64) -> (day: Option<i64>)
    requires
        countable(t, offset as int),
    ensures
        match day {
            Some(n) => local_day(t, offset as int) == Some(n as int),
            None => local_day(t, offset as int) is None,
        },
{
    if t.nanos < 0 {
        return None;
    }
    let unix: i64 = (t.nanos / 1_000_000_000) as i64;
    let local: i64 = unix + offset;
    let quotient: i64 = local / 86_400;
    if local % 86_400 < 0 {
        Some(quotient - 1)
    } else {
        Some(quotient)
    }
}

pub fn weekday_of(day_number: i64) -> (w: usize)
    requires
        day_number <= i64::MAX - 4,
    ensures
        w == weekday(day_number as int),
        w < 7,
{
    let r: i64 = (day_number + 4) % 7;
    if r < 0 {
        (r + 7) as usize
    } else {
        r as usize
    }
}

/// The weekly bar's seven blocks resolved to real weekdays.
///
/// The window ends when the quota resets, so the rightmost block is the day
/// the reset lands on and the six to its left walk backwards from there: a
/// Saturday reset makes the row read Sun through Sat.
#[derive(Clone, Copy, Debug, PartialEq, Eq)]
pub struct WeekBlocks {
    /// Weekday index (0 for Sunday) per block, left to right.
    pub days: [usize; 7],
    /// Block covering today; none once today is outside the window.
    pub today: Option<usize>,
}

/// The weekdays of the seven days that end on day `last`.
pub open spec fn week_ending(last: int) -> Seq<usize> {
    Seq::new(7, |i: int| weekday(last - 6 + i) as usize)
}

/// The block of the week ending on `last` that day `now` falls in.
pub open spec fn block_of(last: int, now: Option<int>) -> Option<usize> {
    match now {
        Some(n) => if 0 <= 6 - (last - n) < 7 {
            Some((6 - (last - n)) as usize)
        } else {
            None
        },
        None => None,
    }
}

/// The blocks of a window that resets at `resets_at`.
pub open spec fn blocks_are(
    blocks: Option<WeekBlocks>,
    resets_at: Option<Moment>,
    now: Moment,
    offset: int,
) -> bool {
    match resets_at {
        Some(t) => match local_day(t, offset) {
            Some(last) => {
                &&& blocks is Some
                &&& blocks->0.days@ == week_ending(last)
                &&& blocks->0.today == block_of(last, local_day(now, offset))
            },
            None => blocks is None,
        },
        None => blocks is None,
    }
}

pub open spec fn resets_countable(resets_at: Option<Moment>, offset: int) -> bool {
    resets_at is Some ==> countable(resets_at->0, offset)
}

pub fn week_blocks(resets_at: Option<Moment>, now: Moment, offset: i64) -> (blocks: Option<
    WeekBlocks,
>)
    requires
        resets_countable(resets_at, offset as int),
        countable(now, offset as int),
    ensures
        blocks_are(blocks, resets_at, now, offset as int),
{
    let last: i64 = match resets_at {
        Some(t) => match local_day_number(t, offset) {
            Some(day) => day,
            None => {
                return None;
            },
        },
        None => {
            return None;
        },
    };
    let days: [usize; 7] = [
        weekday_of(last - 6),
        weekday_of(last - 5),
        weekday_of(last - 4),
        weekday_of(last - 3),
        weekday_of(last - 2),
        weekday_of(last - 1),
        weekday_of(last),
    ];
    assert(days@ =~= week_ending(last as int));
    let today: Option<usize> = match local_day_number(now, offset) {
        Some(n) => {
            let i: i64 = 6 - (last - n);
            if 0 <= i && i < 7 {
                Some(i as usize)
            } else {
                None
            }
        },
        None => None,
    };
    Some(WeekBlocks { days, today })
}

/// Weekly-bar day markers for every provider. One with no known reset time
/// keeps plain, unlabelled dividers.
#[derive(Clone, Copy, Debug, PartialEq, Eq)]
pub struct WeekMarkers {
    pub claude: Option<WeekBlocks>,
    pub codex: Option<WeekBlocks>,
    pub antigravity: Option<WeekBlocks>,
}

pub open spec fn weekly_reset(usage: Option<UsageData>) -> Option<Moment> {
    match usage {
        Some(u) => u.weekly.resets_at,
        None => None,
    }
}

fn weekly_reset_of(usage: Option<UsageData>) -> (t: Option<Moment>)
    ensures
        t == weekly_reset(usage),
{
    match usage {
        Some(u) => u.weekly.resets_at,
        None => None,
    }
}

pub fn week_markers(data: Option<AppUsageData>, now: Moment, offset: i64) -> (markers: WeekMarkers)
    requires
        countable(now, offset as int),
        data is Some ==> {
            &&& resets_countable(weekly_reset(data->0.claude_code), offset as int)
            &&& resets_countable(weekly_reset(data->0.codex), offset as int)
            &&& resets_countable(weekly_reset(data->0.antigravity), offset as int)
        },
    ensures
        match data {
            Some(d) => {
                &&& blocks_are(markers.claude, weekly_reset(d.claude_code), now, offset as int)
                &&& blocks_are(markers.codex, weekly_reset(d.codex), now, offset as int)
                &&& blocks_are(
                    markers.antigravity,
                    weekly_reset(d.antigravity),
                    now,
                    offset as int,
                )
            },
            None => markers == (WeekMarkers { claude: None, codex: None, antigravity: None }),
        },
{
    match data {
        Some(d) => WeekMarkers {
            claude: week_blocks(weekly_reset_of(d.claude_code), now, offset),
            codex: week_blocks(weekly_reset_of(d.codex), now, offset),
            antigravity: week_blocks(weekly_reset_of(d.antigravity), now, offset),
        },
        None => WeekMarkers { claude: None, codex: None, antigravity: None },
    }
}

/// What is left of a window of length `window` that resets at `resets_at`,
/// never more than the window; none without a reset time or once it is past.
pub open spec fn left_of_window(resets_at: Option<Moment>, now: Moment, window: int) -> Option<int> {
    match resets_at {
        Some(t) => if t.nanos < now.nanos {
            None
        } else if t.nanos - now.nanos < window {
            Some(t.nanos - now.nanos)
        } else {
            Some(window)
        },
        None => None,
    }
}

/// The remaining part of a window, in nanoseconds. The fraction already
/// elapsed is where an even spend would have put the reading.
pub fn remaining_in_window(resets_at: Option<Moment>, now: Moment, window: u128) -> (left: Option<
    u128,
>)
    ensures
        match left {
            Some(n) => left_of_window(resets_at, now, window as int) == Some(n as int),
            None => left_of_window(resets_at, now, window as int) is None,
        },
        left is Some ==> left->0 <= window,
{
    match resets_at {
        Some(t) => {
            if t.nanos < now.nanos {
                None
            } else {
                let rest: u128 = if t.nanos >= 0 && now.nanos < 0 {
                    t.nanos as u128 + (-(now.nanos + 1)) as u128 + 1
                } else {
                    (t.nanos - now.nanos) as u128
                };
                if rest < window {
                    Some(rest)
                } else {
                    Some(window)
                }
            }
        },
        None => None,
    }
}

/// What is left of the first provider's two windows.
pub fn claude_pace_windows(data: Option<AppUsageData>, now: Moment) -> (left: (
    Option<u128>,
    Option<u128>,
))
    ensures
        data is Some && data->0.claude_code is Some ==> {
            let u = data->0.claude_code->0;
            &&& match left.0 {
                Some(n) => left_of_window(u.session.resets_at, now, SESSION_WINDOW_NANOS as int)
                    == Some(n as int),
                None => left_of_window(u.session.resets_at, now, SESSION_WINDOW_NANOS as int)
                    is None,
            }
            &&& match left.1 {
                Some(n) => left_of_window(u.weekly.resets_at, now, WEEKLY_WINDOW_NANOS as int)
                    == Some(n as int),
                None => left_of_window(u.weekly.resets_at, now, WEEKLY_WINDOW_NANOS as int)
                    is None,
            }
        },
        !(data is Some && data->0.claude_code is Some) ==> left.0 is None && left.1 is None,
{
    match data {
        Some(d) => match d.claude_code {
            Some(u) => (
                remaining_in_window(u.session.resets_at, now, SESSION_WINDOW_NANOS),
                remaining_in_window(u.weekly.resets_at, now, WEEKLY_WINDOW_NANOS),
            ),
            None => (None, None),
        },
        None => (None, None),
    }
}

/// 1970-01-01 is day 0, and each date's number is one more than that of the
/// date before it: the numbering misses no day and counts none twice.
pub proof fn law_days_are_consecutive(y: int, m: int, d: int)
    requires
        valid_date(y, m, d),
    ensures
        day_number(1970, 1, 1) == 0,
        ({
            let (ny, nm, nd) = next_date(y, m, d);
            &&& valid_date(ny, nm, nd)
            &&& day_number(ny, nm, nd) == day_number(y, m, d) + 1
            &&& weekday(day_number(ny, nm, nd)) == (weekday(day_number(y, m, d)) + 1) % 7
        }),
{
    lemma_months(1970);
    lemma_next_day(y, m, d);
    lemma_next_weekday(day_number(y, m, d));
}

proof fn lemma_next_weekday(day: int)
    ensures
        weekday(day + 1) == (weekday(day) + 1) % 7,
{
}

proof fn lemma_next_day(y: int, m: int, d: int)
    requires
        valid_date(y, m, d),
    ensures
        ({
            let (ny, nm, nd) = next_date(y, m, d);
            &&& valid_date(ny, nm, nd)
            &&& day_number(ny, nm, nd) == day_number(y, m, d) + 1
        }),
{
    if d < month_length(y, m) {
    } else if m < 12 {
        assert(days_before_month(y, m + 1) == days_before_month(y, m) + month_length(y, m));
    } else {
        lemma_months(y);
        lemma_months(y + 1);
        lemma_year_length(y);
        assert(days_before_month(y, 12) == 59 + (if leap(y) {
            1int
        } else {
            0
        }) + (153 * 9 + 2) / 5);
    }
}

/// The row ends on the weekday of the reset, names each weekday once, and
/// walks through them in order.
pub proof fn law_week_ends_on_the_reset_day(last: int)
    ensures
        week_ending(last)[6] == weekday(last),
        forall|i: int|
            0 <= i < 6 ==> week_ending(last)[i + 1] == (#[trigger] week_ending(last)[i] + 1) % 7,
        forall|i: int, j: int|
            0 <= i < j < 7 ==> week_ending(last)[i] != week_ending(last)[j],
{
}

/// The block marked as today carries today's weekday, and a day outside the
/// window is marked nowhere.
pub proof fn law_today_is_marked_by_its_weekday(last: int, now: int)
    ensures
        match block_of(last, Some(now)) {
            Some(i) => last - 6 <= now <= last && week_ending(last)[i as int] == weekday(now),
            None => now < last - 6 || last < now,
        },
{
}

/// A Saturday reset makes the row read Sunday through Saturday.
pub proof fn law_saturday_resets_read_sunday_first(last: int)
    requires
        weekday(last) == 6,
    ensures
        forall|i: int| 0 <= i < 7 ==> week_ending(last)[i] == i,
{
}

/// The local day of an instant is the day whose 24 hours, shifted by the
/// offset, hold it.
pub proof fn law_instants_lie_in_their_day(t: Moment, offset: int)
    requires
        t.nanos >= 0,
    ensures
        local_day(t, offset) is Some,
        ({
            let second = t.nanos as int / 1_000_000_000 + offset;
            let day = local_day(t, offset)->0;
            day * 86_400 <= second < (day + 1) * 86_400
        }),
{
}

/// An offset is rounded to the nearest whole minute, alike on both sides of
/// zero.
pub proof fn law_offsets_are_the_nearest_minute(v: int)
    ensures
        to_whole_minutes(v) % 60 == 0,
        -30 <= to_whole_minutes(v) - v <= 30,
        to_whole_minutes(-v) == -to_whole_minutes(v),
        to_whole_minutes(v) - v == 30 ==> v > 0,
{
}

/// Weekdays repeat after seven days, and the first day of 1970 was a Thursday.
pub proof fn law_weeks_have_seven_days(day: int)
    ensures
        weekday(day + 7) == weekday(day),
        0 <= weekday(day) < 7,
        weekday(day_number(1970, 1, 1)) == 4,
{
    lemma_months(1970);
}

/// What is left of a window is the time to its reset, and at most the window
/// itself; a window whose reset has passed, or is unknown, has none left.
pub proof fn law_windows_run_out_at_their_reset(t: Moment, now: Moment, window: int)
    ensures
        t.nanos < now.nanos ==> left_of_window(Some(t), now, window) is None,
        now.nanos <= t.nanos && t.nanos - now.nanos <= window ==> left_of_window(
            Some(t),
            now,
            window,
        ) == Some(t.nanos - now.nanos),
        now.nanos <= t.nanos && t.nanos - now.nanos > window ==> left_of_window(
            Some(t),
            now,
            window,
        ) == Some(window),
        left_of_window(None, now, window) is None,
        SESSION_WINDOW_NANOS == 5 * 3_600 * 1_000_000_000,
        WEEKLY_WINDOW_NANOS == 7 * 86_400 * 1_000_000_000,
{
}

/// The clock of a wall-clock reading advances with its fields: a minute is 60
/// seconds, an hour 60 minutes, and a day 24 hours.
pub proof fn law_wall_clocks_count_seconds(t: LocalTime)
    requires
        t.hour < 23,
        t.minute < 59,
        t.second < 59,
        t.day < 65_535,
    ensures
        (LocalTime { second: (t.second + 1) as u16, ..t }).seconds() == t.seconds() + 1,
        (LocalTime { minute: (t.minute + 1) as u16, ..t }).seconds() == t.seconds() + 60,
        (LocalTime { hour: (t.hour + 1) as u16, ..t }).seconds() == t.seconds() + 3_600,
        (LocalTime { day: (t.day + 1) as u16, ..t }).seconds() == t.seconds() + 86_400,
        (LocalTime { year: 1970, month: 1, day: 1, hour: 0, minute: 0, second: 0 }).seconds()
            == 0,
{
    lemma_months(1970);
}

/// Each provider's blocks come from its own weekly reset.
pub proof fn law_week_markers_belong_to_their_provider(
    data: AppUsageData,
    now: Moment,
    offset: i64,
    markers: WeekMarkers,
    u: UsageData,
)
    requires
        call_ensures(week_markers, (Some(data), now, offset), markers),
    ensures
        data.claude_code == Some(u) ==> blocks_are(
            markers.claude,
            u.weekly.resets_at,
            now,
            offset as int,
        ),
        data.codex == Some(u) ==> blocks_are(
            markers.codex,
            u.weekly.resets_at,
            now,
            offset as int,
        ),
        data.antigravity == Some(u) ==> blocks_are(
            markers.antigravity,
            u.weekly.resets_at,
            now,
            offset as int,
        ),
        data.claude_code is None ==> markers.claude is None,
        data.codex is None ==> markers.codex is None,
        data.antigravity is None ==> markers.antigravity is None,
{
}

/// The pace comes from the provider's own two windows, the short one of five
/// hours and the long one of seven days.
pub proof fn law_paces_come_from_their_windows(
    data: AppUsageData,
    u: UsageData,
    now: Moment,
    left: (Option<u128>, Option<u128>),
)
    requires
        call_ensures(claude_pace_windows, (Some(data), now), left),
        data.claude_code == Some(u),
    ensures
        u.session.resets_at is None ==> left.0 is None,
        u.weekly.resets_at is None ==> left.1 is None,
        u.session.resets_at is Some && 0 <= u.session.resets_at->0.nanos - now.nanos
            <= 18_000_000_000_000 ==> left.0 is Some && left.0->0
            == u.session.resets_at->0.nanos - now.nanos,
        u.weekly.resets_at is Some && 0 <= u.weekly.resets_at->0.nanos - now.nanos
            <= 604_800_000_000_000 ==> left.1 is Some && left.1->0
            == u.weekly.resets_at->0.nanos - now.nanos,
{
}

} // verus!
