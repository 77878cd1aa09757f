//! A parametric block: two opposite corners, eight derived corner
//! points, and a triangle list over every ordered triple of corners.

use vstd::prelude::*;
use crate::facets::{
    lemma_tri_flat_map_len, permuted_vertices, spec_permuted_vertices,
};
use crate::perm::{lemma_perm3_seq_bounds, lemma_perm3_seq_len, perm3_seq, triple_below};
use crate::point::{Point3d, Vertex, point3_in_range, spec_point3_add};

verus! {

#[derive(Clone, Copy, Debug)]
pub struct Block {
    origin: Point3d,
    dim: Point3d,
}

/// The eight corner points of a block, bottom face first, in a fixed
/// order the triangle scheme depends on.
pub open spec fn spec_block_points(origin: Point3d, dim: Point3d) -> Seq<Point3d> {
    let min = origin;
    let max = spec_point3_add(origin, dim);
    seq![
        min,
        Point3d { x: min.x, y: max.y, z: min.z },
        Point3d { x: max.x, y: min.y, z: min.z },
        Point3d { x: max.x, y: max.y, z: min.z },
        Point3d { x: min.x, y: min.y, z: max.z },
        Point3d { x: max.x, y: min.y, z: max.z },
        Point3d { x: min.x, y: max.y, z: max.z },
        max,
    ]
}

/// The full triangle list of a block: one triangle per ordered triple
/// of distinct corners.
pub open spec fn spec_block_vertices(origin: Point3d, dim: Point3d) -> Seq<Vertex> {
    spec_permuted_vertices(spec_block_points(origin, dim))
}

impl Block {
    pub closed spec fn origin_view(&self) -> Point3d {
        self.origin
    }

    pub closed spec fn dim_view(&self) -> Point3d {
        self.dim
    }

    pub open spec fn wf(&self) -> bool {
        point3_in_range(self.origin_view()) && point3_in_range(self.dim_view())
    }

    /// A block spanned between two corner points.
    pub fn two_points(p1: Point3d, p2: Point3d) -> (r: Block)
        ensures
            r.origin_view() == p1,
            r.dim_view() == p2,
    {
        Block { origin: p1, dim: p2 }
    }

    /// A block from the world origin to the given extent.
    pub fn origin_and_max(dim: Point3d) -> (r: Block)
        ensures
            r.origin_view() == (Point3d { x: 0, y: 0, z: 0 }),
            r.dim_view() == dim,
    {
        Block { origin: Point3d { x: 0, y: 0, z: 0 }, dim }
    }

    /// The eight corner points.
    pub fn points(&self) -> (r: Vec<Point3d>)
        requires
            self.wf(),
        ensures
            r@ == spec_block_points(self.origin_view(), self.dim_view()),
            r@.len() == 8,
    {
        let min = self.origin;
        let max = self.origin.plus(self.dim);
        let mut out: Vec<Point3d> = Vec::new();
        out.push(min);
        out.push(Point3d { x: min.x, y: max.y, z: min.z });
        out.push(Point3d { x: max.x, y: min.y, z: min.z });
        out.push(Point3d { x: max.x, y: max.y, z: min.z });
        out.push(Point3d { x: min.x, y: min.y, z: max.z });
        out.push(Point3d { x: max.x, y: min.y, z: max.z });
        out.push(Point3d { x: min.x, y: max.y, z: max.z });
        out.push(max);
        proof {
            assert(out@ =~= spec_block_points(self.origin_view(), self.dim_view()));
        }
        out
    }

    /// The triangle list: all ordered triples of distinct corner points,
    /// three vertices each, with the averaged-position normal.
    pub fn vertices(&self) -> (r: Vec<Vertex>)
        requires
            self.wf(),
        ensures
            r@ == spec_block_vertices(self.origin_view(), self.dim_view()),
    {
        let points = self.points();
        permuted_vertices(&points)
    }
}

/// A block always renders to `8 * 7 * 6` triangles of three vertices
/// each: 336 ordered corner triples, 1008 vertices.
pub proof fn lemma_block_vertex_count(origin: Point3d, dim: Point3d)
    ensures
        spec_block_vertices(origin, dim).len() == 1008,
{
    let ps = spec_block_points(origin, dim);
    assert(ps.len() == 8);
    lemma_perm3_seq_len(8);
    lemma_perm3_seq_bounds(8);
    assert(perm3_seq(8).len() == 336);
    assert(forall|x: int| 0 <= x < perm3_seq(8).len() ==> triple_below(
        #[trigger] perm3_seq(8)[x],
        8,
    ));
    lemma_tri_flat_map_len(ps, perm3_seq(8));
}

} // verus!
