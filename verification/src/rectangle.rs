use vstd::prelude::*;
use crate::math::SCALE;
use crate::math::div_i64;
use crate::math::div_trunc;

verus! {

/// A point or extent in normalized image coordinates, fixed-point:
/// the stored integer is the coordinate times `crate::math::SCALE`.
#[derive(Clone, Copy, PartialEq, Eq, Structural, Debug)]
pub struct Vec2 {
    pub x: i64,
    pub y: i64,
}

/// An axis-aligned rectangle given by its center and its size, both in
/// normalized coordinates.
#[derive(Clone, Copy, PartialEq, Eq, Structural, Debug)]
pub struct Rectangle {
    pub center: Vec2,
    pub size: Vec2,
}

impl Rectangle {
    pub open spec fn in_coord_range(v: i64) -> bool {
        -100 * SCALE <= v <= 100 * SCALE
    }

    pub open spec fn coords_bounded(&self) -> bool {
        &&& Self::in_coord_range(self.center.x)
        &&& Self::in_coord_range(self.center.y)
        &&& Self::in_coord_range(self.size.x)
        &&& Self::in_coord_range(self.size.y)
    }

    /// Lower corner.
    pub fn min(&self) -> (r: Vec2)
        requires
            self.coords_bounded(),
        ensures
            r.x == self.center.x - div_trunc(self.size.x as int, 2),
            r.y == self.center.y - div_trunc(self.size.y as int, 2),
    {
        Vec2 {
            x: self.center.x - div_i64(self.size.x, 2),
            y: self.center.y - div_i64(self.size.y, 2),
        }
    }

    /// Upper corner.
    pub fn max(&self) -> (r: Vec2)
        requires
            self.coords_bounded(),
        ensures
            r.x == self.center.x + div_trunc(self.size.x as int, 2),
            r.y == self.center.y + div_trunc(self.size.y as int, 2),
    {
        Vec2 {
            x: self.center.x + div_i64(self.size.x, 2),
            y: self.center.y + div_i64(self.size.y, 2),
        }
    }

    pub fn from_min_max(min: Vec2, max: Vec2) -> (r: Rectangle)
        requires
            Self::in_coord_range(min.x),
            Self::in_coord_range(min.y),
            Self::in_coord_range(max.x),
            Self::in_coord_range(max.y),
        ensures
            r.center.x == div_trunc((min.x + max.x) as int, 2),
            r.center.y == div_trunc((min.y + max.y) as int, 2),
            r.size.x == max.x - min.x,
            r.size.y == max.y - min.y,
    {
        Rectangle {
            center: Vec2 { x: div_i64(min.x + max.x, 2), y: div_i64(min.y + max.y, 2) },
            size: Vec2 { x: max.x - min.x, y: max.y - min.y },
        }
    }

    /// The whole image: centered at (1/2, 1/2) with size (1, 1).
    pub fn regular() -> (r: Rectangle)
        ensures
            r == Self::regular_spec(),
    {
        Rectangle { center: Vec2 { x: 5000, y: 5000 }, size: Vec2 { x: SCALE, y: SCALE } }
    }

    pub open spec fn regular_spec() -> Rectangle {
        Rectangle { center: Vec2 { x: 5000, y: 5000 }, size: Vec2 { x: SCALE, y: SCALE } }
    }
}

} // verus!
