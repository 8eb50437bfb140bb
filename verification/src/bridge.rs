//! The calls into chrono.
//!
//! Each function here hands plain values to one chrono operation and hands
//! plain values back. Their contracts are taken from chrono's documentation
//! and source and are believed, not proved: everything else in this crate is
//! proved from them.

use vstd::prelude::*;
use chrono::{Datelike, FixedOffset, LocalResult, NaiveDate, TimeDelta, TimeZone, Timelike, Utc};
use crate::calendar::{day_number, in_range_date, max_day, min_day, weekday_of_day};
use crate::fields::CalendarFields;
use crate::outcome::LocalOutcome;

verus! {

/// `NaiveDate::from_ymd_opt`, then `NaiveDate::and_hms_nano_opt`: whether
/// chrono has a naive date-time with these fields. It has one for every day
/// of the calendar within the supported years and every time of day; a
/// nanosecond of 1,000,000,000 or more, chrono's notation for a leap second,
/// is taken in second 59 only.
#[verifier::external_body]
pub(crate) fn naive_exists(
    year: i32,
    month: u32,
    day: u32,
    hour: u32,
    minute: u32,
    second: u32,
    nanosecond: u32,
) -> (r: bool)
    ensures
        r == (in_range_date(year as int, month as int, day as int) && hour < 24 && minute < 60
            && second < 60 && (nanosecond < 1_000_000_000 || (second == 59 && nanosecond
            < 2_000_000_000))),
{
    match NaiveDate::from_ymd_opt(year, month, day) {
        Some(date) => date.and_hms_nano_opt(hour, minute, second, nanosecond).is_some(),
        None => false,
    }
}

/// `Datelike::weekday` of a `NaiveDate`, then `Weekday::number_from_monday`:
/// the day of the week of a date, 1 for Monday to 7 for Sunday. 1 January of
/// year 1, day 1 of chrono's count of days, is a Monday.
#[verifier::external_body]
pub(crate) fn weekday_from_monday(year: i32, month: u32, day: u32) -> (r: u32)
    requires
        in_range_date(year as int, month as int, day as int),
    ensures
        r == weekday_of_day(day_number(year as int, month as int, day as int)),
{
    NaiveDate::from_ymd_opt(year, month, day).unwrap().weekday().number_from_monday()
}

/// `NaiveDate::checked_add_signed` with `TimeDelta::try_days`: the date
/// `days` days after the given one, before it for a negative count. There is
/// none where that day lies outside the supported years.
#[verifier::external_body]
pub(crate) fn shift_date(year: i32, month: u32, day: u32, days: i64) -> (r: Option<(i32, u32, u32)>)
    requires
        in_range_date(year as int, month as int, day as int),
    ensures
        r is Some <==> min_day() <= day_number(year as int, month as int, day as int) + days
            <= max_day(),
        r matches Some(to) ==> in_range_date(to.0 as int, to.1 as int, to.2 as int) && day_number(
            to.0 as int,
            to.1 as int,
            to.2 as int,
        ) == day_number(year as int, month as int, day as int) + days,
{
    let span = TimeDelta::try_days(days)?;
    let to = NaiveDate::from_ymd_opt(year, month, day).unwrap().checked_add_signed(span)?;
    Some((to.year(), to.month(), to.day()))
}

/// `NaiveDateTime::checked_sub_signed` with `TimeDelta::nanoseconds(1)`: the
/// fields one nanosecond before the given ones. There are none before the
/// first instant of the earliest date.
#[verifier::external_body]
pub(crate) fn nanosecond_before(f: &CalendarFields) -> (r: Option<CalendarFields>)
    requires
        f.wf(),
    ensures
        r is Some <==> f.local_nanos() > min_day() * 86_400_000_000_000,
        r matches Some(p) ==> p.wf() && p.local_nanos() == f.local_nanos() - 1,
{
    let at = NaiveDate::from_ymd_opt(f.year, f.month, f.day).unwrap()
        .and_hms_nano_opt(f.hour, f.minute, f.second, f.nanosecond).unwrap();
    let p = at.checked_sub_signed(TimeDelta::nanoseconds(1))?;
    Some(CalendarFields {
        year: p.year(),
        month: p.month(),
        day: p.day(),
        hour: p.hour(),
        minute: p.minute(),
        second: p.second(),
        nanosecond: p.nanosecond(),
    })
}

/// `TimeZone::from_local_datetime` of a `FixedOffset`: the offsets from UTC
/// under which the zone places a local time. A fixed offset places every
/// local time once, under its own offset, but for those whose UTC date-time
/// would lie outside the supported years: these it does not place.
#[verifier::external_body]
pub(crate) fn fixed_offsets_of_local(f: &CalendarFields, offset: i32) -> (r: LocalOutcome<i32>)
    requires
        f.wf(),
        -86_400 < offset < 86_400,
    ensures
        r == (if f.has_utc(offset as int) {
            LocalOutcome::Single(offset)
        } else {
            LocalOutcome::Missing
        }),
{
    let at = NaiveDate::from_ymd_opt(f.year, f.month, f.day).unwrap()
        .and_hms_nano_opt(f.hour, f.minute, f.second, f.nanosecond).unwrap();
    match FixedOffset::east_opt(offset).unwrap().from_local_datetime(&at) {
        LocalResult::Single(t) => LocalOutcome::Single(t.offset().local_minus_utc()),
        LocalResult::Ambiguous(a, b) => LocalOutcome::Ambiguous(
            a.offset().local_minus_utc(),
            b.offset().local_minus_utc(),
        ),
        LocalResult::None => LocalOutcome::Missing,
    }
}

/// `Utc::now`, then `NaiveDateTime::checked_add_offset`: the fields that a
/// clock `offset` seconds ahead of UTC shows at the moment of the call. The
/// answer differs from call to call; every answer is a date-time of chrono
/// without a leap second, reached from a UTC date-time of chrono. There is
/// none where the local date would lie outside the supported years. Like
/// `Utc::now`, this does not return on a machine whose clock stands before
/// 1970.
#[verifier::external_body]
pub(crate) fn local_now(offset: i32) -> (r: Option<CalendarFields>)
    requires
        -86_400 < offset < 86_400,
    ensures
        r matches Some(f) ==> f.wf() && f.has_utc(offset as int),
{
    let ahead = FixedOffset::east_opt(offset).unwrap();
    let at = Utc::now().naive_utc().checked_add_offset(ahead)?;
    Some(CalendarFields {
        year: at.year(),
        month: at.month(),
        day: at.day(),
        hour: at.hour(),
        minute: at.minute(),
        second: at.second(),
        nanosecond: at.nanosecond(),
    })
}

} // verus!
