//! Fixed-point plane geometry: vectors, transforms and axis-aligned boxes.
//!
//! Every length, position and scale factor is a fixed-point number: the stored
//! integer counts sub-units, and `UNIT` sub-units make one world unit (or a
//! scale factor of one).
use vstd::prelude::*;

verus! {

/// Sub-units per world unit.
pub const UNIT: i64 = 1024;

/// Whether a mathematical integer can be stored as an `i64`.
pub open spec fn fits_i64(v: int) -> bool {
    i64::MIN <= v <= i64::MAX
}

/// Product of two fixed-point numbers, rounded towards negative infinity.
pub open spec fn fx_mul(a: int, b: int) -> int {
    (a * b) / (UNIT as int)
}

/// A point or a displacement in the plane.
#[derive(Clone, Copy, Debug, PartialEq, Eq, Structural)]
pub struct Vec2 {
    pub x: i64,
    pub y: i64,
}

impl Vec2 {
    pub fn new(x: i64, y: i64) -> (r: Vec2)
        ensures
            r.x == x,
            r.y == y,
    {
        Vec2 { x, y }
    }

    pub fn zero() -> (r: Vec2)
        ensures
            r.x == 0,
            r.y == 0,
    {
        Vec2 { x: 0, y: 0 }
    }

    pub open spec fn is_zero(self) -> bool {
        self.x == 0 && self.y == 0
    }

    /// The mathematical sum of two vectors, stored as `i64` components.
    pub open spec fn spec_add(self, d: Vec2) -> Vec2 {
        Vec2 { x: (self.x + d.x) as i64, y: (self.y + d.y) as i64 }
    }

    pub open spec fn can_add(self, d: Vec2) -> bool {
        fits_i64(self.x + d.x) && fits_i64(self.y + d.y)
    }

    pub fn add(self, d: Vec2) -> (r: Vec2)
        requires
            self.can_add(d),
        ensures
            r.x == self.x + d.x,
            r.y == self.y + d.y,
            r == self.spec_add(d),
    {
        Vec2 { x: self.x + d.x, y: self.y + d.y }
    }
}

/// Position, depth and non-uniform scale of an entity. Rotation is always
/// the identity and is not stored.
#[derive(Clone, Copy, Debug, PartialEq, Eq, Structural)]
pub struct Transform {
    pub translation: Vec2,
    /// Drawing order; it takes no part in geometry.
    pub depth: i64,
    pub scale: Vec2,
}

impl Transform {
    /// A transform at the given place with a scale of one on both axes.
    pub fn from_translation(x: i64, y: i64, depth: i64) -> (r: Transform)
        ensures
            r.translation.x == x,
            r.translation.y == y,
            r.depth == depth,
            r.scale.x == UNIT,
            r.scale.y == UNIT,
    {
        Transform { translation: Vec2 { x, y }, depth, scale: Vec2 { x: UNIT, y: UNIT } }
    }
}

/// An axis-aligned box given by its center and its half-extents. A negative
/// half-extent makes a degenerate box.
#[derive(Clone, Copy, Debug, PartialEq, Eq, Structural)]
pub struct Aabb {
    pub center: Vec2,
    pub half_extent: Vec2,
}

impl Aabb {
    pub open spec fn min_x(self) -> int {
        self.center.x - self.half_extent.x
    }

    pub open spec fn max_x(self) -> int {
        self.center.x + self.half_extent.x
    }

    pub open spec fn min_y(self) -> int {
        self.center.y - self.half_extent.y
    }

    pub open spec fn max_y(self) -> int {
        self.center.y + self.half_extent.y
    }

    pub fn new(center: Vec2, half_extent: Vec2) -> (r: Aabb)
        ensures
            r.center == center,
            r.half_extent == half_extent,
    {
        Aabb { center, half_extent }
    }

    /// The same box with each half-extent reduced by the given amount.
    pub fn shrink(&self, amount: Vec2) -> (r: Aabb)
        requires
            fits_i64(self.half_extent.x - amount.x),
            fits_i64(self.half_extent.y - amount.y),
        ensures
            r.center == self.center,
            r.half_extent.x == self.half_extent.x - amount.x,
            r.half_extent.y == self.half_extent.y - amount.y,
    {
        Aabb {
            center: self.center,
            half_extent: Vec2 {
                x: self.half_extent.x - amount.x,
                y: self.half_extent.y - amount.y,
            },
        }
    }

    /// Whether the two boxes, taken as closed rectangles, share a point.
    pub fn intersects(&self, other: &Aabb) -> (r: bool)
        ensures
            r == overlaps(*self, *other),
    {
        let self_min_x = self.center.x as i128 - self.half_extent.x as i128;
        let self_max_x = self.center.x as i128 + self.half_extent.x as i128;
        let self_min_y = self.center.y as i128 - self.half_extent.y as i128;
        let self_max_y = self.center.y as i128 + self.half_extent.y as i128;
        let other_min_x = other.center.x as i128 - other.half_extent.x as i128;
        let other_max_x = other.center.x as i128 + other.half_extent.x as i128;
        let other_min_y = other.center.y as i128 - other.half_extent.y as i128;
        let other_max_y = other.center.y as i128 + other.half_extent.y as i128;
        let x_overlaps = self_min_x <= other_max_x && self_max_x >= other_min_x;
        let y_overlaps = self_min_y <= other_max_y && self_max_y >= other_min_y;
        x_overlaps && y_overlaps
    }
}

/// Two boxes overlap when their projections overlap on both axes.
pub open spec fn overlaps(a: Aabb, b: Aabb) -> bool {
    &&& a.min_x() <= b.max_x()
    &&& a.max_x() >= b.min_x()
    &&& a.min_y() <= b.max_y()
    &&& a.max_y() >= b.min_y()
}

} // verus!
