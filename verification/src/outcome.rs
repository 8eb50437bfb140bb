//! What a zone answers when asked which instants a local time stands for.

use vstd::prelude::*;
use crate::period::BoundaryError;

verus! {

/// The instants that one local time stands for in a zone.
#[derive(Debug, PartialEq, Eq)]
pub enum LocalOutcome<T> {
    /// Exactly one.
    Single(T),
    /// Two, the earlier first: the zone's clocks were set back over this
    /// local time.
    Ambiguous(T, T),
    /// None: the zone's clocks were set forward over this local time, or the
    /// zone could not place it.
    Missing,
}

/// The policy for local times that a zone skips or repeats: such a time is
/// refused, never replaced by a neighbour.
pub open spec fn resolve_spec<T>(outcome: LocalOutcome<T>) -> Result<T, BoundaryError> {
    match outcome {
        LocalOutcome::Single(at) => Ok(at),
        LocalOutcome::Ambiguous(_, _) => Err(BoundaryError::InvalidLocalTime),
        LocalOutcome::Missing => Err(BoundaryError::InvalidLocalTime),
    }
}

/// Accepts the one instant of an unambiguous local time and refuses every
/// other outcome with `InvalidLocalTime`.
pub fn resolve_local<T>(outcome: LocalOutcome<T>) -> (r: Result<T, BoundaryError>)
    ensures
        r == resolve_spec(outcome),
{
    match outcome {
        LocalOutcome::Single(at) => Ok(at),
        LocalOutcome::Ambiguous(_, _) => Err(BoundaryError::InvalidLocalTime),
        LocalOutcome::Missing => Err(BoundaryError::InvalidLocalTime),
    }
}

} // verus!
