use vstd::prelude::*;

verus! {

/// Type for the smallest unit in the game.
pub type Unit = i32;

/// Type for a vec2 of units.
#[derive(Clone, Copy, Debug, PartialEq, Eq, Hash, Structural)]
pub struct UnitVec2 {
    pub x: Unit,
    pub y: Unit,
}

/// How many in game units represent a single render unit.
pub const UNITS_PER_RENDER_UNIT: Unit = 1000;

/// How many in game units represent a single tile.
pub const UNITS_PER_TILE: Unit = 1000;

/// `value` divided by `divisor`, rounded toward zero.
pub open spec fn toward_zero(value: int, divisor: int) -> int {
    if value >= 0 {
        value / divisor
    } else {
        -((-value) / divisor)
    }
}

/// `value`, or the nearer of `low` and `high` where it lies outside them.
pub open spec fn clamped(value: int, low: int, high: int) -> int {
    if value < low {
        low
    } else if value > high {
        high
    } else {
        value
    }
}

/// Converts units, the smallest in game increment, to tile units.
pub fn to_tile_units(units: Unit) -> (tiles: Unit)
    ensures
        tiles == toward_zero(units as int, UNITS_PER_TILE as int),
{
    units / UNITS_PER_TILE
}

} // verus!
