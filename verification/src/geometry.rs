//! Points of the ground plane.

use vstd::prelude::*;

verus! {

/// A point of the ground plane, in fixed-point position units.
#[derive(Clone, Copy, Debug, PartialEq, Eq, Structural)]
pub struct Point {
    pub x: i64,
    pub z: i64,
}

/// Whether `value` can be stored in a coordinate.
pub open spec fn fits_coordinate(value: int) -> bool {
    i64::MIN <= value <= i64::MAX
}

impl Point {
    /// The point with the given mathematical coordinates.
    pub open spec fn at(x: int, z: int) -> Point {
        Point { x: x as i64, z: z as i64 }
    }

    /// The point reached from `self` by moving `dx` along x and `dz` along z.
    pub open spec fn shifted(self, dx: int, dz: int) -> Point {
        Point::at(self.x + dx, self.z + dz)
    }

    /// The point `(x, z)`.
    pub fn new(x: i64, z: i64) -> (p: Point)
        ensures
            p == Point::at(x as int, z as int),
            p.x == x,
            p.z == z,
    {
        Point { x, z }
    }

    /// The point `(0, 0)`.
    pub fn origin() -> (p: Point)
        ensures
            p == Point::at(0, 0),
    {
        Point { x: 0, z: 0 }
    }

    /// Moves the point by `(dx, dz)`, or gives `None` when a coordinate of
    /// the moved point cannot be stored.
    pub fn translate(self, dx: i64, dz: i64) -> (moved: Option<Point>)
        ensures
            moved == if fits_coordinate(self.x + dx) && fits_coordinate(self.z + dz) {
                Some(self.shifted(dx as int, dz as int))
            } else {
                None::<Point>
            },
    {
        match (self.x.checked_add(dx), self.z.checked_add(dz)) {
            (Some(x), Some(z)) => Some(Point { x, z }),
            _ => None,
        }
    }
}

} // verus!
