//! From the local fields of a time to the local fields of the edges of its
//! periods.
//!
//! An edge is found in two steps. The first, here, works on local fields
//! alone and names the anchor: the local time that has to be placed in the
//! zone. For most edges the anchor is the edge. The end of a month or of a
//! quarter is anchored at the first instant of the month after it and lies
//! one nanosecond before that instant, so that no table of month lengths is
//! consulted. The second step, placing the anchor, is the zone's.

use vstd::prelude::*;
use crate::bridge::{shift_date, weekday_from_monday};
use crate::calendar::{
    day_number, days_in_month, is_date, lemma_day_number_increases, lemma_day_number_injective, max_day, min_day,
    MAX_YEAR, MIN_YEAR,
};
use crate::fields::{lemma_days_earlier, lemma_days_later, CalendarFields, LAST_NANOSECOND};
use crate::period::{BoundaryError, Edge, PeriodUnit};

verus! {

/// The first month of the quarter that `month` lies in.
pub open spec fn quarter_first_month(month: int) -> int {
    if month <= 3 {
        1
    } else if month <= 6 {
        4
    } else if month <= 9 {
        7
    } else {
        10
    }
}

/// The first instant of a month.
pub open spec fn first_of_month(year: int, month: int) -> CalendarFields {
    CalendarFields {
        year: year as i32,
        month: month as u32,
        day: 1,
        hour: 0,
        minute: 0,
        second: 0,
        nanosecond: 0,
    }
}

/// The last instant of a month.
pub open spec fn last_of_month(year: int, month: int) -> CalendarFields {
    CalendarFields {
        year: year as i32,
        month: month as u32,
        day: days_in_month(year, month) as u32,
        hour: 23,
        minute: 59,
        second: 59,
        nanosecond: LAST_NANOSECOND,
    }
}

/// The first instant of the period of `unit` that holds `f`. A week begins
/// on its Monday.
pub open spec fn period_start(f: CalendarFields, unit: PeriodUnit) -> CalendarFields {
    match unit {
        PeriodUnit::Minute => CalendarFields { second: 0, nanosecond: 0, ..f },
        PeriodUnit::Hour => CalendarFields { minute: 0, second: 0, nanosecond: 0, ..f },
        PeriodUnit::Day => f.at_midnight(),
        PeriodUnit::Week => f.days_earlier(f.weekday() - 1).at_midnight(),
        PeriodUnit::Month => first_of_month(f.year as int, f.month as int),
        PeriodUnit::Quarter => first_of_month(f.year as int, quarter_first_month(f.month as int)),
        PeriodUnit::Year => first_of_month(f.year as int, 1),
    }
}

/// The last instant of the period of `unit` that holds `f`. A week ends on
/// its Sunday.
pub open spec fn period_end(f: CalendarFields, unit: PeriodUnit) -> CalendarFields {
    match unit {
        PeriodUnit::Minute => CalendarFields { second: 59, nanosecond: LAST_NANOSECOND, ..f },
        PeriodUnit::Hour => CalendarFields {
            minute: 59,
            second: 59,
            nanosecond: LAST_NANOSECOND,
            ..f
        },
        PeriodUnit::Day => f.at_last_instant(),
        PeriodUnit::Week => f.days_later(7 - f.weekday()).at_last_instant(),
        PeriodUnit::Month => last_of_month(f.year as int, f.month as int),
        PeriodUnit::Quarter => last_of_month(
            f.year as int,
            quarter_first_month(f.month as int) + 2,
        ),
        PeriodUnit::Year => last_of_month(f.year as int, 12),
    }
}

/// The edge itself, in local fields.
pub open spec fn edge_fields(f: CalendarFields, unit: PeriodUnit, edge: Edge) -> CalendarFields {
    match edge {
        Edge::Beginning => period_start(f, unit),
        Edge::End => period_end(f, unit),
    }
}

/// Whether an edge lies a nanosecond before its anchor.
pub open spec fn steps_back(unit: PeriodUnit, edge: Edge) -> bool {
    edge == Edge::End && (unit == PeriodUnit::Month || unit == PeriodUnit::Quarter)
}

/// The first instant of the month after the month, or the quarter, of `f`.
pub open spec fn following_start(f: CalendarFields, unit: PeriodUnit) -> CalendarFields {
    let last: int = if unit == PeriodUnit::Quarter {
        quarter_first_month(f.month as int) + 2
    } else {
        f.month as int
    };
    if last < 12 {
        first_of_month(f.year as int, last + 1)
    } else {
        first_of_month(f.year + 1, 1)
    }
}

/// The local time that is placed in the zone to find an edge.
pub open spec fn anchor_fields(f: CalendarFields, unit: PeriodUnit, edge: Edge) -> CalendarFields {
    if steps_back(unit, edge) {
        following_start(f, unit)
    } else {
        edge_fields(f, unit, edge)
    }
}

/// Whether the anchor lies within the supported years. That of a week may
/// lie in a neighbouring year, that of the end of a month or quarter in the
/// next one.
pub open spec fn anchor_in_range(f: CalendarFields, unit: PeriodUnit, edge: Edge) -> bool {
    MIN_YEAR <= anchor_fields(f, unit, edge).year <= MAX_YEAR
}

/// What remains to be done for an edge once the local fields have been
/// looked at.
#[derive(Clone, Copy, Debug, PartialEq, Eq, Structural)]
pub struct BoundaryPlan {
    /// The local time to place in the zone.
    pub anchor: CalendarFields,
    /// Whether the edge is the instant one nanosecond before the placed one.
    pub step_back: bool,
}

/// The plan for an edge, or `OutOfRange` where the anchor leaves the
/// supported years.
pub open spec fn plan_spec(f: CalendarFields, unit: PeriodUnit, edge: Edge) -> Result<
    BoundaryPlan,
    BoundaryError,
> {
    if anchor_in_range(f, unit, edge) {
        Ok(BoundaryPlan { anchor: anchor_fields(f, unit, edge), step_back: steps_back(unit, edge) })
    } else {
        Err(BoundaryError::OutOfRange)
    }
}

/// A date within the supported years lies between the earliest and the
/// latest day, and a date outside them does not.
pub proof fn lemma_range_by_year(year: int, month: int, day: int)
    requires
        is_date(year, month, day),
    ensures
        year >= MIN_YEAR <==> day_number(year, month, day) >= min_day(),
        year <= MAX_YEAR <==> day_number(year, month, day) <= max_day(),
{
    if year < MIN_YEAR {
        lemma_day_number_increases(year, month, day, MIN_YEAR as int, 1, 1);
    } else if !(year == MIN_YEAR && month == 1 && day == 1) {
        lemma_day_number_increases(MIN_YEAR as int, 1, 1, year, month, day);
    }
    if year > MAX_YEAR {
        lemma_day_number_increases(MAX_YEAR as int, 12, 31, year, month, day);
    } else if !(year == MAX_YEAR && month == 12 && day == 31) {
        lemma_day_number_increases(year, month, day, MAX_YEAR as int, 12, 31);
    }
}

/// Anchors and edges are days of the calendar and times of day; within the
/// supported years they are well-formed fields.
pub proof fn lemma_anchor_shape(f: CalendarFields, unit: PeriodUnit, edge: Edge)
    requires
        f.wf(),
    ensures
        anchor_fields(f, unit, edge).names_a_day(),
        anchor_in_range(f, unit, edge) ==> anchor_fields(f, unit, edge).wf(),
        edge_fields(f, unit, edge).names_a_day(),
        MIN_YEAR <= edge_fields(f, unit, edge).year <= MAX_YEAR ==> edge_fields(f, unit, edge).wf(),
{
    let back = f.weekday() - 1;
    lemma_days_earlier(f, back);
    lemma_days_later(f, 6 - back);
}

/// The first instant of a month within the supported years.
fn first_of(year: i32, month: u32) -> (r: CalendarFields)
    ensures
        r == first_of_month(year as int, month as int),
{
    CalendarFields { year, month, day: 1, hour: 0, minute: 0, second: 0, nanosecond: 0 }
}

/// The first month of the quarter that `month` lies in.
pub fn quarter_start_month(month: u32) -> (r: u32)
    ensures
        r == quarter_first_month(month as int),
{
    if month <= 3 {
        1
    } else if month <= 6 {
        4
    } else if month <= 9 {
        7
    } else {
        10
    }
}

/// Midnight of the Monday of the week of `f`.
fn monday_of(f: &CalendarFields) -> (r: Result<CalendarFields, BoundaryError>)
    requires
        f.wf(),
    ensures
        r == (if anchor_in_range(*f, PeriodUnit::Week, Edge::Beginning) {
            Ok(period_start(*f, PeriodUnit::Week))
        } else {
            Err(BoundaryError::OutOfRange)
        }),
{
    let back: u32 = weekday_from_monday(f.year, f.month, f.day) - 1;
    let ghost monday = f.days_earlier(back as int);
    proof {
        lemma_days_earlier(*f, back as int);
        lemma_range_by_year(f.year as int, f.month as int, f.day as int);
        lemma_range_by_year(monday.year as int, monday.month as int, monday.day as int);
    }
    match shift_date(f.year, f.month, f.day, -(back as i64)) {
        Some((year, month, day)) => {
            proof {
                lemma_day_number_injective(
                    year as int,
                    month as int,
                    day as int,
                    monday.year as int,
                    monday.month as int,
                    monday.day as int,
                );
            }
            Ok(CalendarFields { year, month, day, hour: 0, minute: 0, second: 0, nanosecond: 0 })
        },
        None => Err(BoundaryError::OutOfRange),
    }
}

/// The last instant of the Sunday of the week of `f`.
fn sunday_of(f: &CalendarFields) -> (r: Result<CalendarFields, BoundaryError>)
    requires
        f.wf(),
    ensures
        r == (if anchor_in_range(*f, PeriodUnit::Week, Edge::End) {
            Ok(period_end(*f, PeriodUnit::Week))
        } else {
            Err(BoundaryError::OutOfRange)
        }),
{
    let ahead: u32 = 7 - weekday_from_monday(f.year, f.month, f.day);
    let ghost sunday = f.days_later(ahead as int);
    proof {
        lemma_days_later(*f, ahead as int);
        lemma_range_by_year(f.year as int, f.month as int, f.day as int);
        lemma_range_by_year(sunday.year as int, sunday.month as int, sunday.day as int);
    }
    match shift_date(f.year, f.month, f.day, ahead as i64) {
        Some((year, month, day)) => {
            proof {
                lemma_day_number_injective(
                    year as int,
                    month as int,
                    day as int,
                    sunday.year as int,
                    sunday.month as int,
                    sunday.day as int,
                );
            }
            Ok(
                CalendarFields {
                    year,
                    month,
                    day,
                    hour: 23,
                    minute: 59,
                    second: 59,
                    nanosecond: LAST_NANOSECOND,
                },
            )
        },
        None => Err(BoundaryError::OutOfRange),
    }
}

/// The first instant of the month after `month` of `year`, which is the
/// January of the next year after a December.
fn start_after(year: i32, month: u32) -> (r: Result<CalendarFields, BoundaryError>)
    requires
        MIN_YEAR <= year <= MAX_YEAR,
        1 <= month <= 12,
    ensures
        r == (if month < 12 {
            Ok(first_of_month(year as int, month + 1))
        } else if year < MAX_YEAR {
            Ok(first_of_month(year + 1, 1))
        } else {
            Err(BoundaryError::OutOfRange)
        }),
{
    if month < 12 {
        Ok(first_of(year, month + 1))
    } else if year < MAX_YEAR {
        Ok(first_of(year + 1, 1))
    } else {
        Err(BoundaryError::OutOfRange)
    }
}

/// The anchor of the beginning of a period.
fn start_anchor(f: &CalendarFields, unit: PeriodUnit) -> (r: Result<CalendarFields, BoundaryError>)
    requires
        f.wf(),
    ensures
        r == (if anchor_in_range(*f, unit, Edge::Beginning) {
            Ok(anchor_fields(*f, unit, Edge::Beginning))
        } else {
            Err(BoundaryError::OutOfRange)
        }),
{
    match unit {
        PeriodUnit::Minute => Ok(
            CalendarFields {
                year: f.year,
                month: f.month,
                day: f.day,
                hour: f.hour,
                minute: f.minute,
                second: 0,
                nanosecond: 0,
            },
        ),
        PeriodUnit::Hour => Ok(
            CalendarFields {
                year: f.year,
                month: f.month,
                day: f.day,
                hour: f.hour,
                minute: 0,
                second: 0,
                nanosecond: 0,
            },
        ),
        PeriodUnit::Day => Ok(
            CalendarFields {
                year: f.year,
                month: f.month,
                day: f.day,
                hour: 0,
                minute: 0,
                second: 0,
                nanosecond: 0,
            },
        ),
        PeriodUnit::Week => monday_of(f),
        PeriodUnit::Month => Ok(first_of(f.year, f.month)),
        PeriodUnit::Quarter => Ok(first_of(f.year, quarter_start_month(f.month))),
        PeriodUnit::Year => Ok(first_of(f.year, 1)),
    }
}

/// The anchor of the end of a period.
fn end_anchor(f: &CalendarFields, unit: PeriodUnit) -> (r: Result<CalendarFields, BoundaryError>)
    requires
        f.wf(),
    ensures
        r == (if anchor_in_range(*f, unit, Edge::End) {
            Ok(anchor_fields(*f, unit, Edge::End))
        } else {
            Err(BoundaryError::OutOfRange)
        }),
{
    match unit {
        PeriodUnit::Minute => Ok(
            CalendarFields {
                year: f.year,
                month: f.month,
                day: f.day,
                hour: f.hour,
                minute: f.minute,
                second: 59,
                nanosecond: LAST_NANOSECOND,
            },
        ),
        PeriodUnit::Hour => Ok(
            CalendarFields {
                year: f.year,
                month: f.month,
                day: f.day,
                hour: f.hour,
                minute: 59,
                second: 59,
                nanosecond: LAST_NANOSECOND,
            },
        ),
        PeriodUnit::Day => Ok(
            CalendarFields {
                year: f.year,
                month: f.month,
                day: f.day,
                hour: 23,
                minute: 59,
                second: 59,
                nanosecond: LAST_NANOSECOND,
            },
        ),
        PeriodUnit::Week => sunday_of(f),
        PeriodUnit::Month => start_after(f.year, f.month),
        PeriodUnit::Quarter => start_after(f.year, quarter_start_month(f.month) + 2),
        PeriodUnit::Year => Ok(
            CalendarFields {
                year: f.year,
                month: 12,
                day: 31,
                hour: 23,
                minute: 59,
                second: 59,
                nanosecond: LAST_NANOSECOND,
            },
        ),
    }
}

/// Plans an edge of the period of `unit` around the local time `f`: names
/// the local time to place in the zone and says whether the edge lies a
/// nanosecond before it. Fails with `OutOfRange` where that local time
/// leaves the supported years.
pub fn plan_boundary(f: &CalendarFields, unit: PeriodUnit, edge: Edge) -> (r: Result<
    BoundaryPlan,
    BoundaryError,
>)
    requires
        f.wf(),
    ensures
        r == plan_spec(*f, unit, edge),
{
    let found = match edge {
        Edge::Beginning => start_anchor(f, unit),
        Edge::End => end_anchor(f, unit),
    };
    match found {
        Ok(anchor) => {
            let step_back = match (unit, edge) {
                (PeriodUnit::Month, Edge::End) => true,
                (PeriodUnit::Quarter, Edge::End) => true,
                _ => false,
            };
            Ok(BoundaryPlan { anchor, step_back })
        },
        Err(e) => Err(e),
    }
}

} // verus!
