//! Calendar-period boundaries of timestamps: the first and the last instant of
//! the minute, hour, day, week, month, quarter or year that contains a given
//! time, computed in the time's own zone.

mod bridge;
pub mod calendar;
pub mod fields;
pub mod laws;
pub mod outcome;
pub mod period;
pub mod plan;
pub mod traits;
pub mod zoned;

pub use crate::fields::CalendarFields;
pub use crate::outcome::{resolve_local, LocalOutcome};
pub use crate::period::{BoundaryError, Edge, PeriodUnit};
pub use crate::plan::{plan_boundary, BoundaryPlan};
pub use crate::traits::{DateTimeNow, TimeZoneNow};
pub use crate::zoned::{FixedZone, ZonedDateTime};
