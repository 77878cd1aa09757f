//! An extrusion: an owned copy of a sketch and a distance.  Each sketch
//! point yields a bottom/top pair, the top offset along world `z` by the
//! distance, and the render output is exactly those paired vertices,
//! two per sketch point.  No side-wall triangles connect the pairs — a
//! documented incompleteness kept as it is, not silently extended.

use vstd::prelude::*;
use crate::fx::{fx_add, fx_in_range, spec_fx_add};
use crate::point::{Point3d, Vertex, point3_in_range};
use crate::sketch::{Sketch, spec_sketch_points};

verus! {

#[derive(Clone, Debug)]
pub struct Extrude {
    pub sketch: Sketch,
    pub dist: i64,
}

/// A world point and its copy offset along `z` by the distance.
pub open spec fn spec_extrude_pair(p: Point3d, dist: int) -> Seq<Point3d> {
    seq![
        p,
        Point3d { x: p.x, y: p.y, z: spec_fx_add(p.z as int, dist) as i64 },
    ]
}

/// The paired bottom/top points of an extrusion, in sketch order.
pub open spec fn spec_extrude_points(ps: Seq<Point3d>, dist: int) -> Seq<Point3d> {
    ps.flat_map(|p: Point3d| spec_extrude_pair(p, dist))
}

impl Extrude {
    pub open spec fn wf(&self) -> bool {
        self.sketch.wf() && fx_in_range(self.dist)
    }

    /// The spec-level point list of this extrusion.
    pub open spec fn points_spec(&self) -> Seq<Point3d> {
        spec_extrude_points(
            spec_sketch_points(self.sketch.plane_view(), self.sketch.points_view()),
            self.dist as int,
        )
    }

    /// The spec-level render output: one vertex per paired point, with
    /// the default normal and texture.
    pub open spec fn vertices_spec(&self) -> Seq<Vertex> {
        self.points_spec().map_values(
            |p: Point3d| Vertex { position: (p.x, p.y, p.z), normal: (0, 0, 0), texture: (0, 0) },
        )
    }

    /// Each sketch point followed by its offset copy.
    pub fn points(&self) -> (r: Vec<Point3d>)
        requires
            self.wf(),
        ensures
            r@ == self.points_spec(),
    {
        let base = self.sketch.points();
        let ghost f = |p: Point3d| spec_extrude_pair(p, self.dist as int);
        let mut out: Vec<Point3d> = Vec::new();
        proof {
            assert(base@.take(0).flat_map(f) =~= Seq::<Point3d>::empty());
            assert forall|j: int| 0 <= j < base@.len() implies point3_in_range(
                #[trigger] base@[j],
            ) by {
                assert(base@[j] == crate::plane::spec_plane_point(
                    self.sketch.plane_view(),
                    self.sketch.points_view()[j],
                ));
            }
        }
        let mut i: usize = 0;
        while i < base.len()
            invariant
                0 <= i <= base@.len(),
                self.wf(),
                base@ == spec_sketch_points(self.sketch.plane_view(), self.sketch.points_view()),
                f == (|p: Point3d| spec_extrude_pair(p, self.dist as int)),
                forall|j: int| 0 <= j < base@.len() ==> point3_in_range(#[trigger] base@[j]),
                out@ == base@.take(i as int).flat_map(f),
            decreases base@.len() - i,
        {
            let p = base[i];
            out.push(p);
            let top = Point3d { x: p.x, y: p.y, z: fx_add(p.z, self.dist) };
            out.push(top);
            proof {
                base@.lemma_flat_map_take_append(f, i as int);
                assert(out@ =~= base@.take(i + 1 as int).flat_map(f));
            }
            i = i + 1;
        }
        proof {
            assert(base@.take(base@.len() as int) =~= base@);
        }
        out
    }

    /// The render output: exactly the paired bottom/top vertices, two
    /// per sketch point, and nothing else.
    pub fn vertices(&self) -> (r: Vec<Vertex>)
        requires
            self.wf(),
        ensures
            r@ == self.vertices_spec(),
    {
        let points = self.points();
        let ghost g = |p: Point3d| Vertex {
            position: (p.x, p.y, p.z),
            normal: (0, 0, 0),
            texture: (0, 0),
        };
        let mut out: Vec<Vertex> = Vec::new();
        let mut i: usize = 0;
        while i < points.len()
            invariant
                0 <= i <= points@.len(),
                points@ == self.points_spec(),
                g == (|p: Point3d| Vertex {
                    position: (p.x, p.y, p.z),
                    normal: (0, 0, 0),
                    texture: (0, 0),
                }),
                out@ == points@.take(i as int).map_values(g),
            decreases points@.len() - i,
        {
            out.push(Vertex::at_point(points[i]));
            proof {
                assert(points@.take(i + 1 as int).drop_last() =~= points@.take(i as int));
                assert(out@ =~= points@.take(i + 1 as int).map_values(g));
            }
            i = i + 1;
        }
        proof {
            assert(points@.take(points@.len() as int) =~= points@);
        }
        out
    }
}

} // verus!
