//! Local calendar fields: a date and a time of day as a wall clock in some
//! zone shows them.

use vstd::prelude::*;
use crate::calendar::{
    day_number, days_in_month, in_range_date, is_date, lemma_day_number_injective,
    lemma_days_before_month_values, lemma_next_year, max_day, min_day, weekday_of_day,
};
use crate::bridge::naive_exists;

verus! {

/// The nanoseconds of a second.
pub const NANOS_PER_SECOND: u32 = 1_000_000_000;

/// The last nanosecond of a second.
pub const LAST_NANOSECOND: u32 = 999_999_999;

/// A date and a time of day, to the nanosecond, with no zone attached.
#[derive(Clone, Copy, Debug, PartialEq, Eq, Structural)]
pub struct CalendarFields {
    pub year: i32,
    pub month: u32,
    pub day: u32,
    pub hour: u32,
    pub minute: u32,
    pub second: u32,
    pub nanosecond: u32,
}

impl CalendarFields {
    /// The fields name a day of the calendar within the supported years and
    /// a time of that day. A leap second has no fields of its own.
    pub open spec fn wf(&self) -> bool {
        &&& in_range_date(self.year as int, self.month as int, self.day as int)
        &&& self.hour < 24
        &&& self.minute < 60
        &&& self.second < 60
        &&& self.nanosecond < NANOS_PER_SECOND
    }

    /// The position of the date on the line of days.
    pub open spec fn day_number(&self) -> int {
        day_number(self.year as int, self.month as int, self.day as int)
    }

    /// The day of the week, from 1 for Monday to 7 for Sunday.
    pub open spec fn weekday(&self) -> int {
        weekday_of_day(self.day_number())
    }

    /// The seconds since midnight.
    pub open spec fn second_of_day(&self) -> int {
        self.hour * 3600 + self.minute * 60 + self.second
    }

    /// The position on the line of local time: nanoseconds since the
    /// midnight that begins day 0.
    pub open spec fn local_nanos(&self) -> int {
        (self.day_number() * 86_400 + self.second_of_day()) * 1_000_000_000 + self.nanosecond
    }

    /// The day of the calendar that UTC shows while a clock `offset`
    /// seconds ahead of UTC shows these fields.
    pub open spec fn utc_day(&self, offset: int) -> int {
        (self.day_number() * 86_400 + self.second_of_day() - offset) / 86_400
    }

    /// Whether that UTC day, like the local one, lies within the supported
    /// years: only then do the fields and the offset denote an instant.
    pub open spec fn has_utc(&self, offset: int) -> bool {
        min_day() <= self.utc_day(offset) <= max_day()
    }

    /// The first instant of the same day.
    pub open spec fn at_midnight(self) -> CalendarFields {
        CalendarFields { hour: 0, minute: 0, second: 0, nanosecond: 0, ..self }
    }

    /// The last instant of the same day.
    pub open spec fn at_last_instant(self) -> CalendarFields {
        CalendarFields { hour: 23, minute: 59, second: 59, nanosecond: LAST_NANOSECOND, ..self }
    }

    /// The same time of day `days` days earlier, for fewer days than the
    /// shortest month has.
    pub open spec fn days_earlier(self, days: int) -> CalendarFields
        recommends
            0 <= days < 28,
    {
        if self.day > days {
            CalendarFields { day: (self.day - days) as u32, ..self }
        } else if self.month > 1 {
            CalendarFields {
                month: (self.month - 1) as u32,
                day: (days_in_month(self.year as int, self.month - 1) + self.day - days) as u32,
                ..self
            }
        } else {
            CalendarFields {
                year: (self.year - 1) as i32,
                month: 12,
                day: (31 + self.day - days) as u32,
                ..self
            }
        }
    }

    /// The same time of day `days` days later, for fewer days than the
    /// shortest month has.
    pub open spec fn days_later(self, days: int) -> CalendarFields
        recommends
            0 <= days < 28,
    {
        let length = days_in_month(self.year as int, self.month as int);
        if self.day + days <= length {
            CalendarFields { day: (self.day + days) as u32, ..self }
        } else if self.month < 12 {
            CalendarFields {
                month: (self.month + 1) as u32,
                day: (self.day + days - length) as u32,
                ..self
            }
        } else {
            CalendarFields {
                year: (self.year + 1) as i32,
                month: 1,
                day: (self.day + days - 31) as u32,
                ..self
            }
        }
    }

    /// The date itself is a date of the calendar, whatever its year.
    pub open spec fn names_a_day(&self) -> bool {
        is_date(self.year as int, self.month as int, self.day as int)
    }

    /// The fields, where they name a day of the calendar within the
    /// supported years and a time of that day.
    pub fn new(
        year: i32,
        month: u32,
        day: u32,
        hour: u32,
        minute: u32,
        second: u32,
        nanosecond: u32,
    ) -> (r: Option<CalendarFields>)
        ensures
            r == (if (CalendarFields { year, month, day, hour, minute, second, nanosecond }).wf() {
                Some(CalendarFields { year, month, day, hour, minute, second, nanosecond })
            } else {
                None
            }),
    {
        if nanosecond < NANOS_PER_SECOND && naive_exists(
            year,
            month,
            day,
            hour,
            minute,
            second,
            nanosecond,
        ) {
            Some(CalendarFields { year, month, day, hour, minute, second, nanosecond })
        } else {
            None
        }
    }

    /// The fields of a clock reading that may show a leap second. Such a
    /// reading counts the nanoseconds on past the end of second 59; it is
    /// taken as the last nanosecond of that second, so that it stays in its
    /// minute and does not move ahead in time.
    pub fn new_clamped(
        year: i32,
        month: u32,
        day: u32,
        hour: u32,
        minute: u32,
        second: u32,
        nanosecond: u32,
    ) -> (r: Option<CalendarFields>)
        ensures
            r == ({
                let shown = CalendarFields {
                    year,
                    month,
                    day,
                    hour,
                    minute,
                    second,
                    nanosecond: if nanosecond > LAST_NANOSECOND {
                        LAST_NANOSECOND
                    } else {
                        nanosecond
                    },
                };
                if shown.wf() {
                    Some(shown)
                } else {
                    None
                }
            }),
    {
        if nanosecond > LAST_NANOSECOND {
            CalendarFields::new(year, month, day, hour, minute, second, LAST_NANOSECOND)
        } else {
            CalendarFields::new(year, month, day, hour, minute, second, nanosecond)
        }
    }

    /// Whether the fields name a day of the calendar within the supported
    /// years and a time of that day.
    pub fn is_valid(&self) -> (r: bool)
        ensures
            r == self.wf(),
    {
        self.nanosecond < NANOS_PER_SECOND && naive_exists(
            self.year,
            self.month,
            self.day,
            self.hour,
            self.minute,
            self.second,
            self.nanosecond,
        )
    }

    pub fn year(&self) -> (r: i32)
        ensures
            r == self.year,
    {
        self.year
    }

    pub fn month(&self) -> (r: u32)
        ensures
            r == self.month,
    {
        self.month
    }

    pub fn day(&self) -> (r: u32)
        ensures
            r == self.day,
    {
        self.day
    }

    pub fn hour(&self) -> (r: u32)
        ensures
            r == self.hour,
    {
        self.hour
    }

    pub fn minute(&self) -> (r: u32)
        ensures
            r == self.minute,
    {
        self.minute
    }

    pub fn second(&self) -> (r: u32)
        ensures
            r == self.second,
    {
        self.second
    }

    pub fn nanosecond(&self) -> (r: u32)
        ensures
            r == self.nanosecond,
    {
        self.nanosecond
    }
}

/// Going back a few days lands on a day of the calendar, that many days
/// down the line of days.
pub proof fn lemma_days_earlier(f: CalendarFields, days: int)
    requires
        f.wf(),
        0 <= days < 28,
    ensures
        f.days_earlier(days).names_a_day(),
        f.days_earlier(days).day_number() == f.day_number() - days,
        f.days_earlier(days).year == f.year || f.days_earlier(days).year == f.year - 1,
{
    lemma_days_before_month_values(f.year as int, f.month as int);
    if f.day <= days {
        if f.month > 1 {
            lemma_days_before_month_values(f.year as int, f.month - 1);
        } else {
            lemma_days_before_month_values(f.year - 1, 12);
            lemma_days_before_month_values(f.year - 1, 13);
            lemma_next_year(f.year - 1);
        }
    }
}

/// Going on a few days lands on a day of the calendar, that many days up
/// the line of days.
pub proof fn lemma_days_later(f: CalendarFields, days: int)
    requires
        f.wf(),
        0 <= days < 28,
    ensures
        f.days_later(days).names_a_day(),
        f.days_later(days).day_number() == f.day_number() + days,
        f.days_later(days).year == f.year || f.days_later(days).year == f.year + 1,
{
    lemma_days_before_month_values(f.year as int, f.month as int);
    if f.day + days > days_in_month(f.year as int, f.month as int) {
        if f.month < 12 {
            lemma_days_before_month_values(f.year as int, f.month + 1);
        } else {
            lemma_days_before_month_values(f.year as int, 13);
            lemma_days_before_month_values(f.year + 1, 1);
            lemma_next_year(f.year as int);
        }
    }
}

/// The day that UTC shows is the local day or one of its two neighbours.
pub proof fn lemma_utc_day_near(f: CalendarFields, offset: int)
    requires
        f.hour < 24 && f.minute < 60 && f.second < 60,
        -86_400 < offset < 86_400,
    ensures
        f.day_number() - 1 <= f.utc_day(offset) <= f.day_number() + 1,
{
}

/// A count of days, a second of the day and a nanosecond of the second can
/// be read back from the nanoseconds they add up to.
pub proof fn lemma_split_nanos(d1: int, s1: int, n1: int, d2: int, s2: int, n2: int)
    requires
        0 <= s1 < 86_400,
        0 <= s2 < 86_400,
        0 <= n1 < 1_000_000_000,
        0 <= n2 < 1_000_000_000,
        (d1 * 86_400 + s1) * 1_000_000_000 + n1 == (d2 * 86_400 + s2) * 1_000_000_000 + n2,
    ensures
        d1 == d2,
        s1 == s2,
        n1 == n2,
{
}

/// An hour, a minute and a second can be read back from the second of the
/// day they add up to.
pub proof fn lemma_split_seconds(h1: int, m1: int, s1: int, h2: int, m2: int, s2: int)
    requires
        0 <= m1 < 60,
        0 <= m2 < 60,
        0 <= s1 < 60,
        0 <= s2 < 60,
        h1 * 3600 + m1 * 60 + s1 == h2 * 3600 + m2 * 60 + s2,
    ensures
        h1 == h2,
        m1 == m2,
        s1 == s2,
{
}

/// Two field-sets at one point of local time are the same field-set.
pub proof fn lemma_local_nanos_injective(a: CalendarFields, b: CalendarFields)
    requires
        a.names_a_day(),
        b.names_a_day(),
        a.hour < 24 && a.minute < 60 && a.second < 60 && a.nanosecond < NANOS_PER_SECOND,
        b.hour < 24 && b.minute < 60 && b.second < 60 && b.nanosecond < NANOS_PER_SECOND,
        a.local_nanos() == b.local_nanos(),
    ensures
        a == b,
{
    lemma_split_nanos(
        a.day_number(),
        a.second_of_day(),
        a.nanosecond as int,
        b.day_number(),
        b.second_of_day(),
        b.nanosecond as int,
    );
    lemma_split_seconds(
        a.hour as int,
        a.minute as int,
        a.second as int,
        b.hour as int,
        b.minute as int,
        b.second as int,
    );
    lemma_day_number_injective(
        a.year as int,
        a.month as int,
        a.day as int,
        b.year as int,
        b.month as int,
        b.day as int,
    );
}

} // verus!
