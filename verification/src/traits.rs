//! The edges of periods as methods, one for each unit and edge: on an
//! instant, for the periods around it, and on a zone, for the periods around
//! the present.

use vstd::prelude::*;
use crate::bridge::local_now;
use crate::laws::law_idempotent;
use crate::period::{BoundaryError, Edge, PeriodUnit};
use crate::zoned::{boundary_spec, is_edge, FixedZone, ZonedDateTime};

verus! {

/// The edges of the periods around an instant, on the instant's own clock.
pub trait DateTimeNow: Sized {
    /// Whether the value denotes an instant.
    spec fn is_instant(&self) -> bool;

    /// The edge that each method gives.
    spec fn edge_of(&self, unit: PeriodUnit, edge: Edge) -> Result<Self, BoundaryError>;

    fn beginning_of_minute(&self) -> (r: Result<Self, BoundaryError>)
        requires
            self.is_instant(),
        ensures
            r == self.edge_of(PeriodUnit::Minute, Edge::Beginning),
            r matches Ok(at) ==> at.is_instant(),
    ;

    fn beginning_of_hour(&self) -> (r: Result<Self, BoundaryError>)
        requires
            self.is_instant(),
        ensures
            r == self.edge_of(PeriodUnit::Hour, Edge::Beginning),
            r matches Ok(at) ==> at.is_instant(),
    ;

    fn beginning_of_day(&self) -> (r: Result<Self, BoundaryError>)
        requires
            self.is_instant(),
        ensures
            r == self.edge_of(PeriodUnit::Day, Edge::Beginning),
            r matches Ok(at) ==> at.is_instant(),
    ;

    /// Midnight of the Monday of the week.
    fn beginning_of_week(&self) -> (r: Result<Self, BoundaryError>)
        requires
            self.is_instant(),
        ensures
            r == self.edge_of(PeriodUnit::Week, Edge::Beginning),
            r matches Ok(at) ==> at.is_instant(),
    ;

    fn beginning_of_month(&self) -> (r: Result<Self, BoundaryError>)
        requires
            self.is_instant(),
        ensures
            r == self.edge_of(PeriodUnit::Month, Edge::Beginning),
            r matches Ok(at) ==> at.is_instant(),
    ;

    fn beginning_of_quarter(&self) -> (r: Result<Self, BoundaryError>)
        requires
            self.is_instant(),
        ensures
            r == self.edge_of(PeriodUnit::Quarter, Edge::Beginning),
            r matches Ok(at) ==> at.is_instant(),
    ;

    fn beginning_of_year(&self) -> (r: Result<Self, BoundaryError>)
        requires
            self.is_instant(),
        ensures
            r == self.edge_of(PeriodUnit::Year, Edge::Beginning),
            r matches Ok(at) ==> at.is_instant(),
    ;

    fn end_of_minute(&self) -> (r: Result<Self, BoundaryError>)
        requires
            self.is_instant(),
        ensures
            r == self.edge_of(PeriodUnit::Minute, Edge::End),
            r matches Ok(at) ==> at.is_instant(),
    ;

    fn end_of_hour(&self) -> (r: Result<Self, BoundaryError>)
        requires
            self.is_instant(),
        ensures
            r == self.edge_of(PeriodUnit::Hour, Edge::End),
            r matches Ok(at) ==> at.is_instant(),
    ;

    fn end_of_day(&self) -> (r: Result<Self, BoundaryError>)
        requires
            self.is_instant(),
        ensures
            r == self.edge_of(PeriodUnit::Day, Edge::End),
            r matches Ok(at) ==> at.is_instant(),
    ;

    /// The last instant of the Sunday of the week.
    fn end_of_week(&self) -> (r: Result<Self, BoundaryError>)
        requires
            self.is_instant(),
        ensures
            r == self.edge_of(PeriodUnit::Week, Edge::End),
            r matches Ok(at) ==> at.is_instant(),
    ;

    fn end_of_month(&self) -> (r: Result<Self, BoundaryError>)
        requires
            self.is_instant(),
        ensures
            r == self.edge_of(PeriodUnit::Month, Edge::End),
            r matches Ok(at) ==> at.is_instant(),
    ;

    fn end_of_quarter(&self) -> (r: Result<Self, BoundaryError>)
        requires
            self.is_instant(),
        ensures
            r == self.edge_of(PeriodUnit::Quarter, Edge::End),
            r matches Ok(at) ==> at.is_instant(),
    ;

    fn end_of_year(&self) -> (r: Result<Self, BoundaryError>)
        requires
            self.is_instant(),
        ensures
            r == self.edge_of(PeriodUnit::Year, Edge::End),
            r matches Ok(at) ==> at.is_instant(),
    ;
}

impl DateTimeNow for ZonedDateTime {
    open spec fn is_instant(&self) -> bool {
        self.wf()
    }

    open spec fn edge_of(&self, unit: PeriodUnit, edge: Edge) -> Result<
        ZonedDateTime,
        BoundaryError,
    > {
        boundary_spec(*self, unit, edge)
    }

    fn beginning_of_minute(&self) -> (r: Result<ZonedDateTime, BoundaryError>) {
        self.boundary(PeriodUnit::Minute, Edge::Beginning)
    }

    fn beginning_of_hour(&self) -> (r: Result<ZonedDateTime, BoundaryError>) {
        self.boundary(PeriodUnit::Hour, Edge::Beginning)
    }

    fn beginning_of_day(&self) -> (r: Result<ZonedDateTime, BoundaryError>) {
        self.boundary(PeriodUnit::Day, Edge::Beginning)
    }

    fn beginning_of_week(&self) -> (r: Result<ZonedDateTime, BoundaryError>) {
        self.boundary(PeriodUnit::Week, Edge::Beginning)
    }

    fn beginning_of_month(&self) -> (r: Result<ZonedDateTime, BoundaryError>) {
        self.boundary(PeriodUnit::Month, Edge::Beginning)
    }

    fn beginning_of_quarter(&self) -> (r: Result<ZonedDateTime, BoundaryError>) {
        self.boundary(PeriodUnit::Quarter, Edge::Beginning)
    }

    fn beginning_of_year(&self) -> (r: Result<ZonedDateTime, BoundaryError>) {
        self.boundary(PeriodUnit::Year, Edge::Beginning)
    }

    fn end_of_minute(&self) -> (r: Result<ZonedDateTime, BoundaryError>) {
        self.boundary(PeriodUnit::Minute, Edge::End)
    }

    fn end_of_hour(&self) -> (r: Result<ZonedDateTime, BoundaryError>) {
        self.boundary(PeriodUnit::Hour, Edge::End)
    }

    fn end_of_day(&self) -> (r: Result<ZonedDateTime, BoundaryError>) {
        self.boundary(PeriodUnit::Day, Edge::End)
    }

    fn end_of_week(&self) -> (r: Result<ZonedDateTime, BoundaryError>) {
        self.boundary(PeriodUnit::Week, Edge::End)
    }

    fn end_of_month(&self) -> (r: Result<ZonedDateTime, BoundaryError>) {
        self.boundary(PeriodUnit::Month, Edge::End)
    }

    fn end_of_quarter(&self) -> (r: Result<ZonedDateTime, BoundaryError>) {
        self.boundary(PeriodUnit::Quarter, Edge::End)
    }

    fn end_of_year(&self) -> (r: Result<ZonedDateTime, BoundaryError>) {
        self.boundary(PeriodUnit::Year, Edge::End)
    }
}

/// The present instant on a zone's clock, and the edges of the periods
/// around it. Each call reads the clock anew, so nothing says which instant
/// it saw: what is stated holds of every instant it may have seen. What an
/// edge is for a given instant is stated where the instant is given, on
/// `DateTimeNow`.
pub trait TimeZoneNow {
    /// Whether the value denotes a zone.
    spec fn is_zone(&self) -> bool;

    /// Whether `at` is an instant on this zone's clock.
    spec fn shows(&self, at: ZonedDateTime) -> bool;

    fn now(&self) -> (r: Result<ZonedDateTime, BoundaryError>)
        requires
            self.is_zone(),
        ensures
            r matches Ok(at) ==> self.shows(at),
    ;

    fn beginning_of_minute(&self) -> (r: Result<ZonedDateTime, BoundaryError>)
        requires
            self.is_zone(),
        ensures
            r matches Ok(at) ==> self.shows(at) && is_edge(
                at,
                PeriodUnit::Minute,
                Edge::Beginning,
            ),
    ;

    fn beginning_of_hour(&self) -> (r: Result<ZonedDateTime, BoundaryError>)
        requires
            self.is_zone(),
        ensures
            r matches Ok(at) ==> self.shows(at) && is_edge(at, PeriodUnit::Hour, Edge::Beginning),
    ;

    fn beginning_of_day(&self) -> (r: Result<ZonedDateTime, BoundaryError>)
        requires
            self.is_zone(),
        ensures
            r matches Ok(at) ==> self.shows(at) && is_edge(at, PeriodUnit::Day, Edge::Beginning),
    ;

    fn beginning_of_week(&self) -> (r: Result<ZonedDateTime, BoundaryError>)
        requires
            self.is_zone(),
        ensures
            r matches Ok(at) ==> self.shows(at) && is_edge(at, PeriodUnit::Week, Edge::Beginning),
    ;

    fn beginning_of_month(&self) -> (r: Result<ZonedDateTime, BoundaryError>)
        requires
            self.is_zone(),
        ensures
            r matches Ok(at) ==> self.shows(at) && is_edge(at, PeriodUnit::Month, Edge::Beginning),
    ;

    fn beginning_of_quarter(&self) -> (r: Result<ZonedDateTime, BoundaryError>)
        requires
            self.is_zone(),
        ensures
            r matches Ok(at) ==> self.shows(at) && is_edge(
                at,
                PeriodUnit::Quarter,
                Edge::Beginning,
            ),
    ;

    fn beginning_of_year(&self) -> (r: Result<ZonedDateTime, BoundaryError>)
        requires
            self.is_zone(),
        ensures
            r matches Ok(at) ==> self.shows(at) && is_edge(at, PeriodUnit::Year, Edge::Beginning),
    ;

    fn end_of_minute(&self) -> (r: Result<ZonedDateTime, BoundaryError>)
        requires
            self.is_zone(),
        ensures
            r matches Ok(at) ==> self.shows(at) && is_edge(at, PeriodUnit::Minute, Edge::End),
    ;

    fn end_of_hour(&self) -> (r: Result<ZonedDateTime, BoundaryError>)
        requires
            self.is_zone(),
        ensures
            r matches Ok(at) ==> self.shows(at) && is_edge(at, PeriodUnit::Hour, Edge::End),
    ;

    fn end_of_day(&self) -> (r: Result<ZonedDateTime, BoundaryError>)
        requires
            self.is_zone(),
        ensures
            r matches Ok(at) ==> self.shows(at) && is_edge(at, PeriodUnit::Day, Edge::End),
    ;

    fn end_of_week(&self) -> (r: Result<ZonedDateTime, BoundaryError>)
        requires
            self.is_zone(),
        ensures
            r matches Ok(at) ==> self.shows(at) && is_edge(at, PeriodUnit::Week, Edge::End),
    ;

    fn end_of_month(&self) -> (r: Result<ZonedDateTime, BoundaryError>)
        requires
            self.is_zone(),
        ensures
            r matches Ok(at) ==> self.shows(at) && is_edge(at, PeriodUnit::Month, Edge::End),
    ;

    fn end_of_quarter(&self) -> (r: Result<ZonedDateTime, BoundaryError>)
        requires
            self.is_zone(),
        ensures
            r matches Ok(at) ==> self.shows(at) && is_edge(at, PeriodUnit::Quarter, Edge::End),
    ;

    fn end_of_year(&self) -> (r: Result<ZonedDateTime, BoundaryError>)
        requires
            self.is_zone(),
        ensures
            r matches Ok(at) ==> self.shows(at) && is_edge(at, PeriodUnit::Year, Edge::End),
    ;
}

impl FixedZone {
    /// The given edge of the period of `unit` around the present instant,
    /// on this zone's clock.
    pub fn boundary_of_now(&self, unit: PeriodUnit, edge: Edge) -> (r: Result<
        ZonedDateTime,
        BoundaryError,
    >)
        requires
            self.wf(),
        ensures
            r matches Ok(at) ==> at.wf() && at.zone == *self && is_edge(at, unit, edge),
            r matches Err(e) ==> e == BoundaryError::OutOfRange,
    {
        match self.now() {
            Ok(present) => {
                proof {
                    law_idempotent(present, unit, edge);
                }
                present.boundary(unit, edge)
            },
            Err(e) => Err(e),
        }
    }
}

/// A fixed zone skips and repeats no local time, so its one failure is
/// `OutOfRange`.
impl TimeZoneNow for FixedZone {
    open spec fn is_zone(&self) -> bool {
        self.wf()
    }

    open spec fn shows(&self, at: ZonedDateTime) -> bool {
        at.wf() && at.zone == *self
    }

    /// Fails with `OutOfRange` where the zone's clock has left the
    /// supported years.
    fn now(&self) -> (r: Result<ZonedDateTime, BoundaryError>)
        ensures
            r matches Err(e) ==> e == BoundaryError::OutOfRange,
    {
        match local_now(self.offset_seconds) {
            Some(local) => Ok(ZonedDateTime { local, zone: *self }),
            None => Err(BoundaryError::OutOfRange),
        }
    }

    fn beginning_of_minute(&self) -> (r: Result<ZonedDateTime, BoundaryError>)
        ensures
            r matches Err(e) ==> e == BoundaryError::OutOfRange,
    {
        self.boundary_of_now(PeriodUnit::Minute, Edge::Beginning)
    }

    fn beginning_of_hour(&self) -> (r: Result<ZonedDateTime, BoundaryError>)
        ensures
            r matches Err(e) ==> e == BoundaryError::OutOfRange,
    {
        self.boundary_of_now(PeriodUnit::Hour, Edge::Beginning)
    }

    fn beginning_of_day(&self) -> (r: Result<ZonedDateTime, BoundaryError>)
        ensures
            r matches Err(e) ==> e == BoundaryError::OutOfRange,
    {
        self.boundary_of_now(PeriodUnit::Day, Edge::Beginning)
    }

    fn beginning_of_week(&self) -> (r: Result<ZonedDateTime, BoundaryError>)
        ensures
            r matches Err(e) ==> e == BoundaryError::OutOfRange,
    {
        self.boundary_of_now(PeriodUnit::Week, Edge::Beginning)
    }

    fn beginning_of_month(&self) -> (r: Result<ZonedDateTime, BoundaryError>)
        ensures
            r matches Err(e) ==> e == BoundaryError::OutOfRange,
    {
        self.boundary_of_now(PeriodUnit::Month, Edge::Beginning)
    }

    fn beginning_of_quarter(&self) -> (r: Result<ZonedDateTime, BoundaryError>)
        ensures
            r matches Err(e) ==> e == BoundaryError::OutOfRange,
    {
        self.boundary_of_now(PeriodUnit::Quarter, Edge::Beginning)
    }

    fn beginning_of_year(&self) -> (r: Result<ZonedDateTime, BoundaryError>)
        ensures
            r matches Err(e) ==> e == BoundaryError::OutOfRange,
    {
        self.boundary_of_now(PeriodUnit::Year, Edge::Beginning)
    }

    fn end_of_minute(&self) -> (r: Result<ZonedDateTime, BoundaryError>)
        ensures
            r matches Err(e) ==> e == BoundaryError::OutOfRange,
    {
        self.boundary_of_now(PeriodUnit::Minute, Edge::End)
    }

    fn end_of_hour(&self) -> (r: Result<ZonedDateTime, BoundaryError>)
        ensures
            r matches Err(e) ==> e == BoundaryError::OutOfRange,
    {
        self.boundary_of_now(PeriodUnit::Hour, Edge::End)
    }

    fn end_of_day(&self) -> (r: Result<ZonedDateTime, BoundaryError>)
        ensures
            r matches Err(e) ==> e == BoundaryError::OutOfRange,
    {
        self.boundary_of_now(PeriodUnit::Day, Edge::End)
    }

    fn end_of_week(&self) -> (r: Result<ZonedDateTime, BoundaryError>)
        ensures
            r matches Err(e) ==> e == BoundaryError::OutOfRange,
    {
        self.boundary_of_now(PeriodUnit::Week, Edge::End)
    }

    fn end_of_month(&self) -> (r: Result<ZonedDateTime, BoundaryError>)
        ensures
            r matches Err(e) ==> e == BoundaryError::OutOfRange,
    {
        self.boundary_of_now(PeriodUnit::Month, Edge::End)
    }

    fn end_of_quarter(&self) -> (r: Result<ZonedDateTime, BoundaryError>)
        ensures
            r matches Err(e) ==> e == BoundaryError::OutOfRange,
    {
        self.boundary_of_now(PeriodUnit::Quarter, Edge::End)
    }

    fn end_of_year(&self) -> (r: Result<ZonedDateTime, BoundaryError>)
        ensures
            r matches Err(e) ==> e == BoundaryError::OutOfRange,
    {
        self.boundary_of_now(PeriodUnit::Year, Edge::End)
    }
}

} // verus!
