//! The proleptic Gregorian calendar as arithmetic on integers.
//!
//! Everything here is ghost code: dates are triples of mathematical
//! integers, and a date's position on the line of days is its day number,
//! counted so that 1 January of year 1 is day 1.

use vstd::prelude::*;

verus! {

/// The earliest year a calendar date may lie in.
pub const MIN_YEAR: i32 = -262_143;

/// The latest year a calendar date may lie in.
pub const MAX_YEAR: i32 = 262_142;

/// Whether `year` has a 29 February.
pub open spec fn is_leap_year(year: int) -> bool {
    year % 4 == 0 && (year % 100 != 0 || year % 400 == 0)
}

/// The number of days of `year`.
pub open spec fn days_in_year(year: int) -> int {
    if is_leap_year(year) {
        366
    } else {
        365
    }
}

/// The number of days of `month` in `year`.
pub open spec fn days_in_month(year: int, month: int) -> int {
    if month == 2 {
        if is_leap_year(year) {
            29
        } else {
            28
        }
    } else if month == 4 || month == 6 || month == 9 || month == 11 {
        30
    } else {
        31
    }
}

/// Whether (`year`, `month`, `day`) names a day of the calendar.
pub open spec fn is_date(year: int, month: int, day: int) -> bool {
    1 <= month <= 12 && 1 <= day <= days_in_month(year, month)
}

/// Whether (`year`, `month`, `day`) names a day within the supported years.
pub open spec fn in_range_date(year: int, month: int, day: int) -> bool {
    MIN_YEAR <= year <= MAX_YEAR && is_date(year, month, day)
}

/// The number of days from 1 January of year 1 up to, and without, 1 January
/// of `year`; negative for years before year 1.
pub open spec fn days_before_year(year: int) -> int {
    365 * (year - 1) + (year - 1) / 4 - (year - 1) / 100 + (year - 1) / 400
}

/// The number of days of `year` that lie before the first of `month`.
pub open spec fn days_before_month(year: int, month: int) -> int
    decreases month,
{
    if month <= 1 {
        0
    } else {
        days_before_month(year, month - 1) + days_in_month(year, month - 1)
    }
}

/// The position of a date on the line of days: 1 January of year 1 is day 1.
pub open spec fn day_number(year: int, month: int, day: int) -> int {
    days_before_year(year) + days_before_month(year, month) + day
}

/// The day number of the earliest date, 1 January of `MIN_YEAR`.
pub open spec fn min_day() -> int {
    day_number(MIN_YEAR as int, 1, 1)
}

/// The day number of the latest date, 31 December of `MAX_YEAR`.
pub open spec fn max_day() -> int {
    day_number(MAX_YEAR as int, 12, 31)
}

/// The day of the week of day `number`, from 1 for Monday to 7 for Sunday.
pub open spec fn weekday_of_day(number: int) -> int {
    (number - 1) % 7 + 1
}

/// The weeks, Monday to Sunday, counted along the line of days.
pub open spec fn week_of_day(number: int) -> int {
    (number - 1) / 7
}

/// Whether the first date comes before the second.
pub open spec fn date_before(y1: int, m1: int, d1: int, y2: int, m2: int, d2: int) -> bool {
    y1 < y2 || (y1 == y2 && (m1 < m2 || (m1 == m2 && d1 < d2)))
}

/// The days before each month, written out.
pub proof fn lemma_days_before_month_values(year: int, month: int)
    requires
        1 <= month <= 13,
    ensures
        days_before_month(year, month) == (if month == 1 {
            0int
        } else if month == 2 {
            31
        } else {
            let leap: int = if is_leap_year(year) {
                1
            } else {
                0
            };
            leap + (if month == 3 {
                59int
            } else if month == 4 {
                90
            } else if month == 5 {
                120
            } else if month == 6 {
                151
            } else if month == 7 {
                181
            } else if month == 8 {
                212
            } else if month == 9 {
                243
            } else if month == 10 {
                273
            } else if month == 11 {
                304
            } else if month == 12 {
                334
            } else {
                365
            })
        }),
{
    reveal_with_fuel(days_before_month, 14);
}

/// One year on, the line of days has advanced by that year's length.
pub proof fn lemma_next_year(year: int)
    ensures
        days_before_year(year + 1) == days_before_year(year) + days_in_year(year),
{
}

/// Later years begin later.
pub proof fn lemma_years_increase(y1: int, y2: int)
    requires
        y1 <= y2,
    ensures
        days_before_year(y1) + 365 * (y2 - y1) <= days_before_year(y2),
    decreases y2 - y1,
{
    if y1 < y2 {
        lemma_years_increase(y1, y2 - 1);
        lemma_next_year(y2 - 1);
    }
}

/// Earlier dates have smaller day numbers.
pub proof fn lemma_day_number_increases(y1: int, m1: int, d1: int, y2: int, m2: int, d2: int)
    requires
        is_date(y1, m1, d1),
        is_date(y2, m2, d2),
        date_before(y1, m1, d1, y2, m2, d2),
    ensures
        day_number(y1, m1, d1) < day_number(y2, m2, d2),
{
    lemma_days_before_month_values(y1, m1);
    lemma_days_before_month_values(y2, m2);
    if y1 < y2 {
        lemma_next_year(y1);
        lemma_years_increase(y1 + 1, y2);
    }
}

/// A day number belongs to one date only.
pub proof fn lemma_day_number_injective(y1: int, m1: int, d1: int, y2: int, m2: int, d2: int)
    requires
        is_date(y1, m1, d1),
        is_date(y2, m2, d2),
        day_number(y1, m1, d1) == day_number(y2, m2, d2),
    ensures
        y1 == y2 && m1 == m2 && d1 == d2,
{
    if date_before(y1, m1, d1, y2, m2, d2) {
        lemma_day_number_increases(y1, m1, d1, y2, m2, d2);
    } else if date_before(y2, m2, d2, y1, m1, d1) {
        lemma_day_number_increases(y2, m2, d2, y1, m1, d1);
    }
}

} // verus!
