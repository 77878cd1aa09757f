//! A sketch: an ordered chain of 2D points on a plane, rendered as one
//! vertex per point through the plane's local-to-world projection.

use vstd::prelude::*;
use crate::plane::{Plane, plane_in_range, spec_plane_point, spec_plane_vertex};
use crate::point::{Point2d, Point3d, Vertex, point2_in_range};

verus! {

#[derive(Clone, Debug)]
pub struct Sketch {
    plane: Plane,
    points: Vec<Point2d>,
}

/// The world positions of a sketch's points, in order.
pub open spec fn spec_sketch_points(pl: Plane, ps: Seq<Point2d>) -> Seq<Point3d> {
    ps.map_values(|p: Point2d| spec_plane_point(pl, p))
}

/// The render vertices of a sketch, one per point, in order.
pub open spec fn spec_sketch_vertices(pl: Plane, ps: Seq<Point2d>) -> Seq<Vertex> {
    ps.map_values(|p: Point2d| spec_plane_vertex(pl, p))
}

impl Sketch {
    pub closed spec fn plane_view(&self) -> Plane {
        self.plane
    }

    pub closed spec fn points_view(&self) -> Seq<Point2d> {
        self.points@
    }

    pub open spec fn wf(&self) -> bool {
        &&& plane_in_range(self.plane_view())
        &&& forall|i: int|
            0 <= i < self.points_view().len() ==> point2_in_range(#[trigger] self.points_view()[i])
    }

    /// An empty sketch on the plane through the origin.
    pub fn new() -> (r: Sketch)
        ensures
            r.wf(),
            r.plane_view() == (Plane(Point3d { x: 0, y: 0, z: 0 })),
            r.points_view() == Seq::<Point2d>::empty(),
    {
        Sketch { plane: Plane::new(), points: Vec::new() }
    }

    /// A sketch with the given point chain, on the plane through the
    /// origin.
    pub fn with_points(points: Vec<Point2d>) -> (r: Sketch)
        ensures
            r.plane_view() == (Plane(Point3d { x: 0, y: 0, z: 0 })),
            r.points_view() == points@,
    {
        Sketch { plane: Plane::new(), points }
    }

    /// The world positions of the chain, in order.
    pub fn points(&self) -> (r: Vec<Point3d>)
        ensures
            r@ == spec_sketch_points(self.plane_view(), self.points_view()),
    {
        let mut out: Vec<Point3d> = Vec::new();
        let mut i: usize = 0;
        while i < self.points.len()
            invariant
                0 <= i <= self.points_view().len(),
                out@ == spec_sketch_points(self.plane_view(), self.points_view().take(i as int)),
            decreases self.points_view().len() - i,
        {
            out.push(self.plane.point(&self.points[i]));
            proof {
                assert(self.points_view().take(i + 1 as int).drop_last()
                    =~= self.points_view().take(i as int));
                assert(out@ =~= spec_sketch_points(
                    self.plane_view(),
                    self.points_view().take(i + 1 as int),
                ));
            }
            i = i + 1;
        }
        proof {
            assert(self.points_view().take(self.points_view().len() as int)
                =~= self.points_view());
        }
        out
    }

    /// One render vertex per chain point, in order.
    pub fn vertices(&self) -> (r: Vec<Vertex>)
        ensures
            r@ == spec_sketch_vertices(self.plane_view(), self.points_view()),
    {
        let mut out: Vec<Vertex> = Vec::new();
        let mut i: usize = 0;
        while i < self.points.len()
            invariant
                0 <= i <= self.points_view().len(),
                out@ == spec_sketch_vertices(self.plane_view(), self.points_view().take(i as int)),
            decreases self.points_view().len() - i,
        {
            out.push(self.plane.vertex(&self.points[i]));
            proof {
                assert(self.points_view().take(i + 1 as int).drop_last()
                    =~= self.points_view().take(i as int));
                assert(out@ =~= spec_sketch_vertices(
                    self.plane_view(),
                    self.points_view().take(i + 1 as int),
                ));
            }
            i = i + 1;
        }
        proof {
            assert(self.points_view().take(self.points_view().len() as int)
                =~= self.points_view());
        }
        out
    }
}

} // verus!
