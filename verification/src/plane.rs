//! The sketch plane: where a 2D sketch lives in 3D space.
//!
//! A plane is represented explicitly as a plane parallel to the world
//! XY plane: the wrapped point's `z` is the plane's height, and the
//! point doubles as the normal value stamped on emitted vertices.  A
//! local sketch coordinate `(x, y)` therefore maps to the world point
//! `(x, y, height)`.

use vstd::prelude::*;
use crate::point::{Point2d, Point3d, Vertex, point3_in_range};

verus! {

#[derive(Clone, Copy, Debug, PartialEq, Eq, Structural)]
pub struct Plane(pub Point3d);

/// The world position of a local 2D sketch point on a plane.
pub open spec fn spec_plane_point(pl: Plane, p: Point2d) -> Point3d {
    Point3d { x: p.x, y: p.y, z: pl.0.z }
}

/// The render vertex of a local 2D sketch point: the projected position,
/// the plane's point as the normal, and the default texture coordinate.
pub open spec fn spec_plane_vertex(pl: Plane, p: Point2d) -> Vertex {
    Vertex {
        position: (p.x, p.y, pl.0.z),
        normal: (pl.0.x, pl.0.y, pl.0.z),
        texture: (0, 0),
    }
}

impl Plane {
    /// A plane through the world origin.
    pub fn new() -> (r: Plane)
        ensures
            r == (Plane(Point3d { x: 0, y: 0, z: 0 })),
    {
        Plane(Point3d { x: 0, y: 0, z: 0 })
    }

    /// Create a 3D point from a 2D point local to the plane.
    pub fn point(&self, point: &Point2d) -> (r: Point3d)
        ensures
            r == spec_plane_point(*self, *point),
    {
        Point3d { x: point.x, y: point.y, z: self.0.z }
    }

    /// Create a [`Vertex`] from a given point on the plane.
    pub fn vertex(&self, point: &Point2d) -> (r: Vertex)
        ensures
            r == spec_plane_vertex(*self, *point),
    {
        Vertex {
            position: (point.x, point.y, self.0.z),
            normal: (self.0.x, self.0.y, self.0.z),
            texture: (0, 0),
        }
    }
}

pub open spec fn plane_in_range(pl: Plane) -> bool {
    point3_in_range(pl.0)
}

} // verus!
