use crate::game::constants::{Unit, UnitVec2};
use vstd::prelude::*;

verus! {

/// Represents an Axis-Aligned-Bounding-Box used for
/// collision detection.
#[derive(Clone, Copy, Debug, PartialEq, Eq, Structural)]
pub struct Aabb {
    pub top_left: UnitVec2,
    pub dimensions: UnitVec2,
}

impl Aabb {
    /// Whether the far corner of the box can be told in units.
    pub open spec fn fits(&self) -> bool {
        &&& i32::MIN <= self.top_left.x + self.dimensions.x <= i32::MAX
        &&& i32::MIN <= self.top_left.y + self.dimensions.y <= i32::MAX
    }

    /// Whether the two boxes overlap: boxes that only touch do not.
    pub open spec fn overlaps(&self, other: &Aabb) -> bool {
        &&& self.top_left.x < other.top_left.x + other.dimensions.x
        &&& self.top_left.x + self.dimensions.x > other.top_left.x
        &&& self.top_left.y < other.top_left.y + other.dimensions.y
        &&& self.top_left.y + self.dimensions.y > other.top_left.y
    }

    /// Gets the width of this [`Aabb`].
    pub fn width(&self) -> (width: Unit)
        ensures
            width == self.dimensions.x,
    {
        self.dimensions.x
    }

    /// Gets the height of this [`Aabb`].
    pub fn height(&self) -> (height: Unit)
        ensures
            height == self.dimensions.y,
    {
        self.dimensions.y
    }

    /// Gets the top left coordinate of this [`Aabb`].
    pub fn top_left(&self) -> (corner: UnitVec2)
        ensures
            corner == self.top_left,
    {
        self.top_left
    }

    /// Gets the top right coordinate of this [`Aabb`].
    pub fn top_right(&self) -> (corner: UnitVec2)
        requires
            self.fits(),
        ensures
            corner.x == self.top_left.x + self.dimensions.x,
            corner.y == self.top_left.y,
    {
        UnitVec2 { x: self.top_left.x + self.dimensions.x, y: self.top_left.y }
    }

    /// Gets the bottom left coordinate of this [`Aabb`].
    pub fn bottom_left(&self) -> (corner: UnitVec2)
        requires
            self.fits(),
        ensures
            corner.x == self.top_left.x,
            corner.y == self.top_left.y + self.dimensions.y,
    {
        UnitVec2 { x: self.top_left.x, y: self.top_left.y + self.dimensions.y }
    }

    /// Gets the bottom right coordinate of this [`Aabb`].
    pub fn bottom_right(&self) -> (corner: UnitVec2)
        requires
            self.fits(),
        ensures
            corner.x == self.top_left.x + self.dimensions.x,
            corner.y == self.top_left.y + self.dimensions.y,
    {
        UnitVec2 {
            x: self.top_left.x + self.dimensions.x,
            y: self.top_left.y + self.dimensions.y,
        }
    }

    /// Gets the left x coordinate of this [`Aabb`].
    pub fn x_left(&self) -> (x: Unit)
        ensures
            x == self.top_left.x,
    {
        self.top_left.x
    }

    /// Gets the right x coordinate of this [`Aabb`].
    pub fn x_right(&self) -> (x: Unit)
        requires
            self.fits(),
        ensures
            x == self.top_left.x + self.dimensions.x,
    {
        self.top_left.x + self.dimensions.x
    }

    /// Gets the top y coordinate of this [`Aabb`].
    pub fn y_top(&self) -> (y: Unit)
        ensures
            y == self.top_left.y,
    {
        self.top_left.y
    }

    /// Gets the bottom y coordinate of this [`Aabb`].
    pub fn y_bottom(&self) -> (y: Unit)
        requires
            self.fits(),
        ensures
            y == self.top_left.y + self.dimensions.y,
    {
        self.top_left.y + self.dimensions.y
    }

    /// Checks if this [`Aabb`] collides with another [`Aabb`].
    pub fn collides_with(&self, other: &Aabb) -> (collides: bool)
        requires
            self.fits(),
            other.fits(),
        ensures
            collides == self.overlaps(other),
    {
        self.x_left() < other.x_right() && self.x_right() > other.x_left() && self.y_top()
            < other.y_bottom() && self.y_bottom() > other.y_top()
    }
}

/// Whether two boxes overlap does not depend on which is asked.
pub proof fn lemma_overlaps_is_symmetric(first: Aabb, second: Aabb)
    ensures
        first.overlaps(&second) == second.overlaps(&first),
{
}

} // verus!
