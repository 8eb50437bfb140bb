//! Instants on the clock of a zone with a fixed offset from UTC, and the
//! edges of the periods around them.

use vstd::prelude::*;
use crate::bridge::{fixed_offsets_of_local, nanosecond_before};
use crate::calendar::{
    lemma_days_before_month_values, lemma_next_year, lemma_years_increase, min_day, MAX_YEAR,
    MIN_YEAR,
};
use crate::fields::{lemma_local_nanos_injective, CalendarFields};
use crate::outcome::{resolve_local, LocalOutcome};
use crate::period::{BoundaryError, Edge, PeriodUnit};
use crate::plan::{
    anchor_fields, anchor_in_range, edge_fields, following_start, lemma_anchor_shape,
    period_end, plan_boundary, quarter_first_month, steps_back,
};

verus! {

/// A zone whose clock is always the same number of seconds ahead of UTC.
#[derive(Clone, Copy, Debug, PartialEq, Eq, Structural)]
pub struct FixedZone {
    /// Local time minus UTC, in seconds; negative west of Greenwich.
    pub offset_seconds: i32,
}

/// An instant as the clock of a fixed zone shows it.
#[derive(Clone, Copy, Debug, PartialEq, Eq, Structural)]
pub struct ZonedDateTime {
    /// What the zone's clock shows.
    pub local: CalendarFields,
    /// The zone.
    pub zone: FixedZone,
}

impl FixedZone {
    /// The offset is less than a day.
    pub open spec fn wf(&self) -> bool {
        -86_400 < self.offset_seconds < 86_400
    }

    /// What `place` gives: the instant at which the zone's clock shows `f`,
    /// where the instant lies within the supported years on UTC's clock too.
    pub open spec fn place_spec(self, f: CalendarFields) -> Result<ZonedDateTime, BoundaryError> {
        if f.has_utc(self.offset_seconds as int) {
            Ok(ZonedDateTime { local: f, zone: self })
        } else {
            Err(BoundaryError::OutOfRange)
        }
    }

    /// The zone `seconds` seconds east of Greenwich, west for a negative
    /// count, where that is less than a day.
    pub fn east(seconds: i32) -> (r: Option<FixedZone>)
        ensures
            r == (if -86_400 < seconds < 86_400 {
                Some(FixedZone { offset_seconds: seconds })
            } else {
                None
            }),
    {
        if -86_400 < seconds && seconds < 86_400 {
            Some(FixedZone { offset_seconds: seconds })
        } else {
            None
        }
    }

    /// The zone of UTC itself.
    pub fn utc() -> (r: FixedZone)
        ensures
            r == (FixedZone { offset_seconds: 0 }),
    {
        FixedZone { offset_seconds: 0 }
    }

    pub fn offset_seconds(&self) -> (r: i32)
        ensures
            r == self.offset_seconds,
    {
        self.offset_seconds
    }

    /// The instant at which this zone's clock shows `f`. A fixed zone skips
    /// and repeats no local time: the one failure is `OutOfRange`, for a
    /// local time in the first or last hours of the supported years whose
    /// instant lies outside them on UTC's clock.
    pub fn place(&self, f: &CalendarFields) -> (r: Result<ZonedDateTime, BoundaryError>)
        requires
            self.wf(),
            f.wf(),
        ensures
            r == self.place_spec(*f),
    {
        match fixed_offsets_of_local(f, self.offset_seconds) {
            LocalOutcome::Missing => Err(BoundaryError::OutOfRange),
            found => match resolve_local(found) {
                Ok(offset_seconds) => Ok(
                    ZonedDateTime { local: *f, zone: FixedZone { offset_seconds } },
                ),
                Err(e) => Err(e),
            },
        }
    }
}

/// The edge of the period of `unit` around `t`, on the clock of the zone of
/// `t`: `OutOfRange` where the anchor of the edge leaves the supported
/// years, on the zone's clock or on UTC's.
pub open spec fn boundary_spec(t: ZonedDateTime, unit: PeriodUnit, edge: Edge) -> Result<
    ZonedDateTime,
    BoundaryError,
> {
    if anchor_in_range(t.local, unit, edge) && anchor_fields(t.local, unit, edge).has_utc(
        t.zone.offset_seconds as int,
    ) {
        Ok(ZonedDateTime { local: edge_fields(t.local, unit, edge), zone: t.zone })
    } else {
        Err(BoundaryError::OutOfRange)
    }
}

/// Whether `t` is itself the edge of the period around it.
pub open spec fn is_edge(t: ZonedDateTime, unit: PeriodUnit, edge: Edge) -> bool {
    boundary_spec(t, unit, edge) == Ok::<ZonedDateTime, BoundaryError>(t)
}

/// The last instant of a month, or of a quarter, lies one nanosecond before
/// the first instant of the month that follows.
pub proof fn lemma_end_before_following_start(f: CalendarFields, unit: PeriodUnit)
    requires
        f.wf(),
        unit == PeriodUnit::Month || unit == PeriodUnit::Quarter,
    ensures
        period_end(f, unit).wf(),
        period_end(f, unit).local_nanos() + 1 == following_start(f, unit).local_nanos(),
        period_end(f, unit).day_number() >= min_day() + 27,
{
    let last: int = if unit == PeriodUnit::Quarter {
        quarter_first_month(f.month as int) + 2
    } else {
        f.month as int
    };
    lemma_days_before_month_values(f.year as int, last);
    lemma_days_before_month_values(f.year as int, last + 1);
    lemma_days_before_month_values(f.year + 1, 1);
    lemma_next_year(f.year as int);
    lemma_years_increase(MIN_YEAR as int, f.year as int);
    lemma_days_before_month_values(MIN_YEAR as int, 1);
}

/// An edge that is given is an instant: well-formed on the zone's clock and
/// within the supported years on UTC's.
pub proof fn lemma_boundary_wf(t: ZonedDateTime, unit: PeriodUnit, edge: Edge)
    requires
        t.wf(),
    ensures
        boundary_spec(t, unit, edge) matches Ok(at) ==> at.wf(),
{
    lemma_anchor_shape(t.local, unit, edge);
    if steps_back(unit, edge) {
        lemma_end_before_following_start(t.local, unit);
    }
}

impl ZonedDateTime {
    /// The local fields are well-formed, the offset is less than a day, and
    /// the instant lies within the supported years on UTC's clock as well.
    pub open spec fn wf(&self) -> bool {
        &&& self.local.wf()
        &&& self.zone.wf()
        &&& self.local.has_utc(self.zone.offset_seconds as int)
    }

    /// The position of the instant on the line of time, in nanoseconds:
    /// where UTC's clock would stand, counted as local fields are.
    pub open spec fn instant_nanos(&self) -> int {
        self.local.local_nanos() - self.zone.offset_seconds * 1_000_000_000
    }

    /// The instant at which the clock of `zone` shows `local`, where the
    /// two are well-formed and denote an instant.
    pub fn new(local: CalendarFields, zone: FixedZone) -> (r: Option<ZonedDateTime>)
        ensures
            r == (if (ZonedDateTime { local, zone }).wf() {
                Some(ZonedDateTime { local, zone })
            } else {
                None
            }),
    {
        if -86_400 < zone.offset_seconds && zone.offset_seconds < 86_400 && local.is_valid() {
            match zone.place(&local) {
                Ok(at) => Some(at),
                Err(_) => None,
            }
        } else {
            None
        }
    }

    pub fn local(&self) -> (r: CalendarFields)
        ensures
            r == self.local,
    {
        self.local
    }

    pub fn zone(&self) -> (r: FixedZone)
        ensures
            r == self.zone,
    {
        self.zone
    }

    pub fn year(&self) -> (r: i32)
        ensures
            r == self.local.year,
    {
        self.local.year
    }

    pub fn month(&self) -> (r: u32)
        ensures
            r == self.local.month,
    {
        self.local.month
    }

    pub fn day(&self) -> (r: u32)
        ensures
            r == self.local.day,
    {
        self.local.day
    }

    pub fn hour(&self) -> (r: u32)
        ensures
            r == self.local.hour,
    {
        self.local.hour
    }

    pub fn minute(&self) -> (r: u32)
        ensures
            r == self.local.minute,
    {
        self.local.minute
    }

    pub fn second(&self) -> (r: u32)
        ensures
            r == self.local.second,
    {
        self.local.second
    }

    pub fn nanosecond(&self) -> (r: u32)
        ensures
            r == self.local.nanosecond,
    {
        self.local.nanosecond
    }

    /// The given edge of the period of `unit` that holds this instant, on
    /// the same zone's clock.
    pub fn boundary(&self, unit: PeriodUnit, edge: Edge) -> (r: Result<
        ZonedDateTime,
        BoundaryError,
    >)
        requires
            self.wf(),
        ensures
            r == boundary_spec(*self, unit, edge),
            r matches Ok(at) ==> at.wf(),
    {
        proof {
            lemma_anchor_shape(self.local, unit, edge);
            lemma_boundary_wf(*self, unit, edge);
        }
        let plan = match plan_boundary(&self.local, unit, edge) {
            Ok(plan) => plan,
            Err(e) => {
                return Err(e);
            },
        };
        let placed = match self.zone.place(&plan.anchor) {
            Ok(placed) => placed,
            Err(e) => {
                return Err(e);
            },
        };
        if plan.step_back {
            proof {
                lemma_end_before_following_start(self.local, unit);
            }
            match nanosecond_before(&placed.local) {
                Some(local) => {
                    proof {
                        lemma_local_nanos_injective(local, period_end(self.local, unit));
                    }
                    Ok(ZonedDateTime { local, zone: placed.zone })
                },
                None => Err(BoundaryError::OutOfRange),
            }
        } else {
            Ok(placed)
        }
    }

    /// The first instant of the period of `unit` that holds this instant.
    pub fn beginning_of(&self, unit: PeriodUnit) -> (r: Result<ZonedDateTime, BoundaryError>)
        requires
            self.wf(),
        ensures
            r == boundary_spec(*self, unit, Edge::Beginning),
            r matches Ok(at) ==> at.wf(),
    {
        self.boundary(unit, Edge::Beginning)
    }

    /// The last instant of the period of `unit` that holds this instant.
    pub fn end_of(&self, unit: PeriodUnit) -> (r: Result<ZonedDateTime, BoundaryError>)
        requires
            self.wf(),
        ensures
            r == boundary_spec(*self, unit, Edge::End),
            r matches Ok(at) ==> at.wf(),
    {
        self.boundary(unit, Edge::End)
    }
}

} // verus!
