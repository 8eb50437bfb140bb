//! The periods of the calendar, their two edges, and what can go wrong when
//! an edge is asked for.

use vstd::prelude::*;

verus! {

/// A period of the calendar. Weeks run from Monday to Sunday; quarters are
/// the four runs of three months that begin in January, April, July and
/// October.
#[derive(Clone, Copy, Debug, PartialEq, Eq, Structural)]
pub enum PeriodUnit {
    Minute,
    Hour,
    Day,
    Week,
    Month,
    Quarter,
    Year,
}

/// The two edges of a period: its first instant and its last one, a
/// nanosecond before the next period begins.
#[derive(Clone, Copy, Debug, PartialEq, Eq, Structural)]
pub enum Edge {
    Beginning,
    End,
}

/// Why an edge could not be given.
#[derive(Clone, Copy, Debug, PartialEq, Eq, Structural)]
pub enum BoundaryError {
    /// The local time of the edge does not exist in the zone, or exists
    /// twice: a daylight-saving transition skips or repeats it.
    InvalidLocalTime,
    /// A date or an instant that the computation passes through lies outside
    /// the years `MIN_YEAR` to `MAX_YEAR`.
    OutOfRange,
}

impl BoundaryError {
    /// The sentence that `message` gives for each error.
    pub open spec fn message_text(self) -> Seq<char> {
        match self {
            BoundaryError::InvalidLocalTime => "local time is skipped or repeated in this zone"@,
            BoundaryError::OutOfRange => "date is outside the supported years"@,
        }
    }

    /// A sentence for a person to read.
    pub fn message(&self) -> (text: &'static str)
        ensures
            text@ == self.message_text(),
    {
        match self {
            BoundaryError::InvalidLocalTime => "local time is skipped or repeated in this zone",
            BoundaryError::OutOfRange => "date is outside the supported years",
        }
    }
}

} // verus!
