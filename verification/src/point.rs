//! Coordinate value types: 2D and 3D points and the flat render vertex.
//!
//! All coordinates are fixed-point scalars (see [`crate::fx`]).  Points
//! are plain values, copied freely; a [`Vertex`] is the transient record
//! an entity emits for the render buffer.

use vstd::prelude::*;
use crate::fx::{fx_add, fx_in_range, spec_fx_add};

verus! {

/// A 2D point, used for sketching on a plane and for pointer positions.
#[derive(Clone, Copy, Debug, PartialEq, Eq, Structural)]
pub struct Point2d {
    pub x: i64,
    pub y: i64,
}

/// A 3D point in world space.
#[derive(Clone, Copy, Debug, PartialEq, Eq, Structural)]
pub struct Point3d {
    pub x: i64,
    pub y: i64,
    pub z: i64,
}

pub open spec fn point2_in_range(p: Point2d) -> bool {
    fx_in_range(p.x) && fx_in_range(p.y)
}

pub open spec fn point3_in_range(p: Point3d) -> bool {
    fx_in_range(p.x) && fx_in_range(p.y) && fx_in_range(p.z)
}

/// Component-wise saturating addition of two points.
pub open spec fn spec_point3_add(a: Point3d, b: Point3d) -> Point3d {
    Point3d {
        x: spec_fx_add(a.x as int, b.x as int) as i64,
        y: spec_fx_add(a.y as int, b.y as int) as i64,
        z: spec_fx_add(a.z as int, b.z as int) as i64,
    }
}

impl Point3d {
    pub fn to_array(&self) -> (r: [i64; 3])
        ensures
            r[0] == self.x,
            r[1] == self.y,
            r[2] == self.z,
    {
        [self.x, self.y, self.z]
    }

    /// Component-wise addition, saturating at the scalar range.
    pub fn plus(self, rhs: Point3d) -> (r: Point3d)
        requires
            point3_in_range(self),
            point3_in_range(rhs),
        ensures
            r == spec_point3_add(self, rhs),
            point3_in_range(r),
    {
        Point3d {
            x: fx_add(self.x, rhs.x),
            y: fx_add(self.y, rhs.y),
            z: fx_add(self.z, rhs.z),
        }
    }
}

/// One flat record of the render buffer: a position, a normal and a
/// texture coordinate, all fixed-point.
#[derive(Clone, Copy, Debug, PartialEq, Eq)]
pub struct Vertex {
    pub position: (i64, i64, i64),
    pub normal: (i64, i64, i64),
    pub texture: (i64, i64),
}

impl Vertex {
    /// A vertex at a position, with the default zero normal and texture.
    pub fn at_point(p: Point3d) -> (r: Vertex)
        ensures
            r == (Vertex { position: (p.x, p.y, p.z), normal: (0, 0, 0), texture: (0, 0) }),
    {
        Vertex { position: (p.x, p.y, p.z), normal: (0, 0, 0), texture: (0, 0) }
    }
}

} // verus!
