//! Source positions and the location tags of target instructions.

use vstd::prelude::*;

verus! {

/// Where a node of the source tree was read: a line and a column.
#[derive(Clone, Copy, Debug, PartialEq, Eq, Structural)]
pub struct Position {
    pub line: usize,
    pub column: usize,
}

/// The tag that a target instruction carries for diagnostics.
#[derive(Clone, Copy, Debug, PartialEq, Eq, Structural)]
pub struct Location {
    pub line: usize,
    pub column: usize,
}

/// The location tag that stands for a source position.
pub open spec fn location_of(position: Position) -> Location {
    Location { line: position.line, column: position.column }
}

/// The source position that a location tag stands for.
pub open spec fn position_of(location: Location) -> Position {
    Position { line: location.line, column: location.column }
}

/// Carries a source position over to the target side, line and column unchanged.
pub fn position_to_location(position: Position) -> (location: Location)
    ensures
        location == location_of(position),
{
    Location { line: position.line, column: position.column }
}

/// Reads the source position back out of a location tag.
pub fn location_to_position(location: Location) -> (position: Position)
    ensures
        position == position_of(location),
{
    Position { line: location.line, column: location.column }
}

/// A position survives the trip to the target side and back, and so does a
/// location the other way round.
pub proof fn law_position_location_round_trip(position: Position, location: Location)
    ensures
        position_of(location_of(position)) == position,
        location_of(position_of(location)) == location,
{
}

} // verus!
