//! What holds of the edges of periods, for every instant and every unit.

use vstd::prelude::*;
use crate::calendar::{
    days_before_year, lemma_day_number_injective, lemma_days_before_month_values,
    lemma_next_year, lemma_years_increase, week_of_day, MAX_YEAR, MIN_YEAR,
};
use crate::fields::{lemma_days_earlier, lemma_days_later, lemma_utc_day_near, CalendarFields};
use crate::period::{Edge, PeriodUnit};
use crate::plan::{
    anchor_fields, edge_fields, lemma_anchor_shape, period_end, period_start, quarter_first_month,
};
use crate::zoned::{boundary_spec, is_edge, lemma_end_before_following_start, ZonedDateTime};

verus! {

/// Whether two local times lie in the same period of `unit`: the same
/// minute of the same day, the same week from Monday to Sunday, the same
/// quarter of the same year, and so on.
pub open spec fn same_period(a: CalendarFields, b: CalendarFields, unit: PeriodUnit) -> bool {
    let same_day = a.year == b.year && a.month == b.month && a.day == b.day;
    match unit {
        PeriodUnit::Minute => same_day && a.hour == b.hour && a.minute == b.minute,
        PeriodUnit::Hour => same_day && a.hour == b.hour,
        PeriodUnit::Day => same_day,
        PeriodUnit::Week => week_of_day(a.day_number()) == week_of_day(b.day_number()),
        PeriodUnit::Month => a.year == b.year && a.month == b.month,
        PeriodUnit::Quarter => a.year == b.year && quarter_first_month(a.month as int)
            == quarter_first_month(b.month as int),
        PeriodUnit::Year => a.year == b.year,
    }
}

/// Whether `later` lies in the month that follows the month of `earlier`.
pub open spec fn in_following_month(earlier: CalendarFields, later: CalendarFields) -> bool {
    if earlier.month == 12 {
        later.year == earlier.year + 1 && later.month == 1
    } else {
        later.year == earlier.year && later.month == earlier.month + 1
    }
}

/// The first and the last instant of a period lie in that period, the first
/// not after any time of the period and the last not before it.
pub proof fn lemma_period_spans(f: CalendarFields, unit: PeriodUnit)
    requires
        f.wf(),
    ensures
        same_period(f, period_start(f, unit), unit),
        same_period(f, period_end(f, unit), unit),
        period_start(f, unit).local_nanos() <= f.local_nanos() <= period_end(f, unit).local_nanos(),
{
    let back = f.weekday() - 1;
    lemma_days_earlier(f, back);
    lemma_days_later(f, 6 - back);
    let first = quarter_first_month(f.month as int);
    lemma_days_before_month_values(f.year as int, f.month as int);
    lemma_days_before_month_values(f.year as int, first);
    lemma_days_before_month_values(f.year as int, first + 2);
    lemma_days_before_month_values(f.year as int, 1);
    lemma_days_before_month_values(f.year as int, 12);
}

/// The Monday that begins a week is a Monday, and the Sunday that ends it
/// is a Sunday.
pub proof fn lemma_week_edges(f: CalendarFields)
    requires
        f.wf(),
    ensures
        period_start(f, PeriodUnit::Week).weekday() == 1,
        period_end(f, PeriodUnit::Week).weekday() == 7,
        period_start(f, PeriodUnit::Week).names_a_day(),
        period_end(f, PeriodUnit::Week).names_a_day(),
{
    let back = f.weekday() - 1;
    lemma_days_earlier(f, back);
    lemma_days_later(f, 6 - back);
    let n = f.day_number();
    assert(f.days_earlier(back).at_midnight().day_number() == n - back);
    assert(f.days_later(6 - back).at_last_instant().day_number() == n + 6 - back);
    assert(back == (n - 1) % 7);
    assert((n - back - 1) % 7 == 0);
    assert((n + 6 - back - 1) % 7 == 6);
}

/// In local fields: the edge of the period around an edge is that edge,
/// found from the same anchor.
pub proof fn lemma_edge_is_fixed(f: CalendarFields, unit: PeriodUnit, edge: Edge)
    requires
        f.wf(),
    ensures
        edge_fields(edge_fields(f, unit, edge), unit, edge) == edge_fields(f, unit, edge),
        anchor_fields(edge_fields(f, unit, edge), unit, edge) == anchor_fields(f, unit, edge),
{
    let e = edge_fields(f, unit, edge);
    if unit == PeriodUnit::Week {
        lemma_week_edges(f);
        if edge == Edge::Beginning {
            assert(e.days_earlier(0) == e);
        } else {
            assert(e.days_later(0) == e);
        }
    }
}

/// Idempotence: an edge is its own edge. Asking for the beginning of the
/// period around the beginning of a period gives that beginning again, and
/// likewise for ends.
pub proof fn law_idempotent(t: ZonedDateTime, unit: PeriodUnit, edge: Edge)
    requires
        t.wf(),
    ensures
        boundary_spec(t, unit, edge) matches Ok(at) ==> is_edge(at, unit, edge),
{
    lemma_edge_is_fixed(t.local, unit, edge);
}

/// Ordering: the beginning of a period is not after any instant of the
/// period, and the end is not before it.
pub proof fn law_ordering(t: ZonedDateTime, unit: PeriodUnit)
    requires
        t.wf(),
    ensures
        boundary_spec(t, unit, Edge::Beginning) matches Ok(first) ==> first.instant_nanos()
            <= t.instant_nanos(),
        boundary_spec(t, unit, Edge::End) matches Ok(last) ==> t.instant_nanos()
            <= last.instant_nanos(),
{
    lemma_period_spans(t.local, unit);
}

/// Containment: both edges lie in the same period as the instant they were
/// asked for, on the same zone's clock.
pub proof fn law_containment(t: ZonedDateTime, unit: PeriodUnit, edge: Edge)
    requires
        t.wf(),
    ensures
        boundary_spec(t, unit, edge) matches Ok(at) ==> at.zone == t.zone && same_period(
            t.local,
            at.local,
            unit,
        ),
{
    lemma_period_spans(t.local, unit);
}

/// Adjacency: one nanosecond after the end of a month the next month
/// begins. `later` is any instant of the month after that of `t`, on the
/// same zone's clock.
pub proof fn law_month_adjacency(t: ZonedDateTime, later: ZonedDateTime)
    requires
        t.wf(),
        later.wf(),
        later.zone == t.zone,
        in_following_month(t.local, later.local),
    ensures
        boundary_spec(t, PeriodUnit::Month, Edge::End) matches Ok(last) ==> boundary_spec(
            later,
            PeriodUnit::Month,
            Edge::Beginning,
        ) matches Ok(first) && last.instant_nanos() + 1 == first.instant_nanos(),
{
    lemma_end_before_following_start(t.local, PeriodUnit::Month);
}

/// Zone fidelity: an edge is given on the clock of the zone of the instant
/// it was asked for.
pub proof fn law_zone_kept(t: ZonedDateTime, unit: PeriodUnit, edge: Edge)
    ensures
        boundary_spec(t, unit, edge) matches Ok(at) ==> at.zone == t.zone,
{
}

/// An anchor lies in the year of its time or within a week of it.
pub proof fn lemma_anchor_near(f: CalendarFields, unit: PeriodUnit, edge: Edge)
    requires
        f.wf(),
    ensures
        f.year - 1 <= anchor_fields(f, unit, edge).year <= f.year + 1,
        days_before_year(f.year as int) - 5 <= anchor_fields(f, unit, edge).day_number()
            <= days_before_year(f.year + 1) + 6,
{
    let a = anchor_fields(f, unit, edge);
    lemma_days_earlier(f, f.weekday() - 1);
    lemma_days_later(f, 7 - f.weekday());
    lemma_days_before_month_values(f.year as int, f.month as int);
    lemma_days_before_month_values(a.year as int, a.month as int);
    lemma_next_year(f.year as int);
}

/// Away from the first and the last of the supported years every edge
/// exists.
pub proof fn law_edges_exist(t: ZonedDateTime, unit: PeriodUnit, edge: Edge)
    requires
        t.wf(),
        MIN_YEAR < t.local.year < MAX_YEAR,
    ensures
        boundary_spec(t, unit, edge) is Ok,
{
    let f = t.local;
    let a = anchor_fields(f, unit, edge);
    lemma_anchor_near(f, unit, edge);
    lemma_anchor_shape(f, unit, edge);
    lemma_utc_day_near(a, t.zone.offset_seconds as int);
    lemma_days_before_month_values(MIN_YEAR as int, 1);
    lemma_days_before_month_values(MAX_YEAR as int, 12);
    lemma_years_increase(MIN_YEAR as int, f.year as int);
    lemma_years_increase(f.year + 1, MAX_YEAR as int);
}

/// A period has one beginning and one end: two instants of the same
/// period, on the same zone's clock, have the same edges.
pub proof fn law_same_period_same_edges(
    t: ZonedDateTime,
    other: ZonedDateTime,
    unit: PeriodUnit,
    edge: Edge,
)
    requires
        t.wf(),
        other.wf(),
        other.zone == t.zone,
        same_period(t.local, other.local, unit),
    ensures
        boundary_spec(t, unit, edge) == boundary_spec(other, unit, edge),
{
    if unit == PeriodUnit::Week {
        let a = edge_fields(t.local, unit, edge);
        let b = edge_fields(other.local, unit, edge);
        lemma_week_edges(t.local);
        lemma_week_edges(other.local);
        lemma_days_earlier(t.local, t.local.weekday() - 1);
        lemma_days_later(t.local, 7 - t.local.weekday());
        lemma_days_earlier(other.local, other.local.weekday() - 1);
        lemma_days_later(other.local, 7 - other.local.weekday());
        lemma_day_number_injective(
            a.year as int,
            a.month as int,
            a.day as int,
            b.year as int,
            b.month as int,
            b.day as int,
        );
        assert(a == b);
    }
}

} // verus!
