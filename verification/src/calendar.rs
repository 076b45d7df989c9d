use vstd::prelude::*;

use crate::duration::Duration;

verus! {

/// How many days the calendar gives `year`: 366 when the year is divisible
/// by 4 but not by 400, else 365.
///
/// The rule deliberately diverges from the proleptic Gregorian one at century
/// boundaries (it makes the year 2000 a 365-day year) and disagrees with
/// [`month_length`] about February in such years; the crate keeps both rules
/// as they are rather than repairing either.
pub open spec fn year_length(year: int) -> int {
    if year % 4 == 0 && year % 400 != 0 {
        366
    } else {
        365
    }
}

/// How many days month index `month` of `year` contributes. Index 0 is a
/// sentinel that contributes nothing; indices 1 through 12 are the civil
/// months January through December; indices above 12 fall into the final
/// 30-day branch.
pub open spec fn month_length(year: int, month: int) -> int {
    if month == 0 {
        0
    } else if month == 1 || month == 3 || month == 5 || month == 7 || month == 8 || month == 10
        || month == 12 {
        31
    } else if month == 2 && (year % 400 == 0 || (year % 4 == 0 && year % 100 != 0)) {
        29
    } else if month == 2 {
        28
    } else {
        30
    }
}

/// Days of every full year in the range [1970, year): the distance in days
/// from the epoch's midnight to the start of `year`. Years at or before 1970
/// contribute nothing.
pub open spec fn days_before_year(year: int) -> int
    decreases year - 1970,
{
    if year <= 1970 {
        0
    } else {
        days_before_year(year - 1) + year_length(year - 1)
    }
}

/// Days of every month index in the range [0, month) within `year`: the
/// distance in days from the start of `year` to the start of its month
/// `month`.
pub open spec fn days_before_month(year: int, month: int) -> int
    decreases month,
{
    if month <= 0 {
        0
    } else {
        days_before_month(year, month - 1) + month_length(year, month - 1)
    }
}

/// Days the day-of-month number contributes: days are 1-indexed, so day 1
/// adds nothing, and the sentinel day 0 is clamped to add nothing as well.
pub open spec fn day_contribution(day: int) -> int {
    if day == 0 {
        0
    } else {
        day - 1
    }
}

/// Seconds between 1970-01-01T00:00:00Z and the civil instant
/// (year, month, day, hour, min, sec), read as UTC under this crate's
/// calendar rules.
pub open spec fn epoch_seconds(year: int, month: int, day: int, hour: int, min: int, sec: int) -> int {
    let days: int = days_before_year(year) + days_before_month(year, month) + day_contribution(day);
    ((days * 24 + hour) * 60 + min) * 60 + sec
}

/// The day count of `year` under this crate's calendar rule.
pub fn number_of_days_in_a_year(year: i32) -> (r: usize)
    ensures
        r == year_length(year as int),
{
    if year % 4 == 0 && year % 400 != 0 {
        366
    } else {
        365
    }
}

/// The day count of month index `month` within `year`; index 0 is an inert
/// sentinel worth zero days.
pub fn number_of_days_in_a_month(year: i32, month: u32) -> (r: usize)
    ensures
        r == month_length(year as int, month as int),
{
    if month == 0 {
        return 0;
    }
    if month == 1 || month == 3 || month == 5 || month == 7 || month == 8 || month == 10
        || month == 12 {
        31
    } else if month == 2 && (year % 400 == 0 || (year % 4 == 0 && year % 100 != 0)) {
        29
    } else if month == 2 {
        28
    } else {
        30
    }
}

/// Seconds from the epoch to the civil instant (year, month, day, hour, min,
/// sec). The arguments are not validated: out-of-range months, days or times
/// are folded in under the same rules, deterministically.
pub fn epoch_from(year: i32, month: u32, day: u32, hour: u32, min: u32, sec: u32) -> (r: Duration)
    ensures
        r@ == epoch_seconds(
            year as int,
            month as int,
            day as int,
            hour as int,
            min as int,
            sec as int,
        ),
{
    let mut days_of_passed_years: u64 = 0;
    let mut y: i32 = 1970;
    while y < year
        invariant
            1970 <= y,
            y <= year || y == 1970,
            days_of_passed_years == days_before_year(y as int),
            days_of_passed_years <= 366 * (y - 1970),
        decreases year as int - y as int,
    {
        days_of_passed_years = days_of_passed_years + number_of_days_in_a_year(y) as u64;
        y = y + 1;
    }

    let mut days_of_passed_months: u64 = 0;
    let mut m: u32 = 0;
    while m < month
        invariant
            m <= month,
            days_of_passed_months == days_before_month(year as int, m as int),
            days_of_passed_months <= 31 * m,
        decreases month as int - m as int,
    {
        days_of_passed_months = days_of_passed_months + number_of_days_in_a_month(year, m) as u64;
        m = m + 1;
    }

    let days_passed_this_month: u64 = if day == 0 {
        0
    } else {
        (day - 1) as u64
    };

    let number_of_days_passed: u64 = days_of_passed_years + days_of_passed_months
        + days_passed_this_month;
    let number_of_hours_passed: u64 = number_of_days_passed * 24 + hour as u64;
    let number_of_minutes_passed: u64 = number_of_hours_passed * 60 + min as u64;
    let number_of_seconds_passed: u64 = number_of_minutes_passed * 60 + sec as u64;

    Duration::from_secs(number_of_seconds_passed)
}

/// The epoch's own civil tuple denotes zero elapsed seconds.
pub proof fn lemma_epoch_zero()
    ensures
        epoch_seconds(1970, 1, 1, 0, 0, 0) == 0,
{
    reveal_with_fuel(days_before_month, 2);
}

/// For a fixed calendar date, advancing the hour, the minute or the second
/// by one unit raises the epoch count by exactly that unit in seconds:
/// 3600, 60 or 1.
pub proof fn lemma_time_of_day_monotone(year: int, month: int, day: int, hour: int, min: int, sec: int)
    ensures
        epoch_seconds(year, month, day, hour + 1, min, sec) == epoch_seconds(
            year,
            month,
            day,
            hour,
            min,
            sec,
        ) + 3600,
        epoch_seconds(year, month, day, hour, min + 1, sec) == epoch_seconds(
            year,
            month,
            day,
            hour,
            min,
            sec,
        ) + 60,
        epoch_seconds(year, month, day, hour, min, sec + 1) == epoch_seconds(
            year,
            month,
            day,
            hour,
            min,
            sec,
        ) + 1,
{
}

/// Month index 0 contributes zero month days, and day 1 contributes zero
/// intra-month days: both sentinels are inert.
pub proof fn lemma_month_zero_day_one_inert(year: int)
    ensures
        days_before_month(year, 0) == 0,
        day_contribution(1) == 0,
{
}

} // verus!
