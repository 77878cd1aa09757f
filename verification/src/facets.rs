//! Triangle emission shared by the block and extrusion entities: every
//! ordered triple of distinct points becomes one triangle of three
//! vertices, whose common normal is the average of the three positions
//! (a placeholder scheme, deliberately stable rather than geometric).

use vstd::prelude::*;
use crate::fx::{fx_div, spec_fx_div};
use crate::perm::{perm3_seq, permutations3};
use crate::point::{Point3d, Vertex, point3_in_range, spec_point3_add};

verus! {

/// Three units, the divisor of the averaged normal.
pub const FX_THREE: i64 = 3_000_000;

/// The averaged position of a triple of points, used as their normal.
pub open spec fn spec_tri_normal(ps: Seq<Point3d>, t: (usize, usize, usize)) -> (int, int, int) {
    let s = spec_point3_add(
        spec_point3_add(ps[t.0 as int], ps[t.1 as int]),
        ps[t.2 as int],
    );
    (
        spec_fx_div(s.x as int, FX_THREE as int),
        spec_fx_div(s.y as int, FX_THREE as int),
        spec_fx_div(s.z as int, FX_THREE as int),
    )
}

/// The three vertices of one triangle, or nothing for a triple whose
/// indices do not all name points.
pub open spec fn spec_tri_vertices(ps: Seq<Point3d>, t: (usize, usize, usize)) -> Seq<Vertex> {
    if t.0 < ps.len() && t.1 < ps.len() && t.2 < ps.len() {
        let n = spec_tri_normal(ps, t);
        let nv = (n.0 as i64, n.1 as i64, n.2 as i64);
        seq![
            Vertex {
                position: (ps[t.0 as int].x, ps[t.0 as int].y, ps[t.0 as int].z),
                normal: nv,
                texture: (0, 0),
            },
            Vertex {
                position: (ps[t.1 as int].x, ps[t.1 as int].y, ps[t.1 as int].z),
                normal: nv,
                texture: (0, 0),
            },
            Vertex {
                position: (ps[t.2 as int].x, ps[t.2 as int].y, ps[t.2 as int].z),
                normal: nv,
                texture: (0, 0),
            },
        ]
    } else {
        Seq::empty()
    }
}

/// Every ordered triple of distinct points, in lexicographic index
/// order, flattened into one vertex list.
pub open spec fn spec_permuted_vertices(ps: Seq<Point3d>) -> Seq<Vertex> {
    perm3_seq(ps.len() as usize).flat_map(|t: (usize, usize, usize)| spec_tri_vertices(ps, t))
}

/// A sequence of in-range triples flat-maps to three vertices each.
pub proof fn lemma_tri_flat_map_len(ps: Seq<Point3d>, ts: Seq<(usize, usize, usize)>)
    requires
        forall|i: int| 0 <= i < ts.len() ==>
            (#[trigger] ts[i]).0 < ps.len() && ts[i].1 < ps.len() && ts[i].2 < ps.len(),
    ensures
        ts.flat_map(|t: (usize, usize, usize)| spec_tri_vertices(ps, t)).len() == 3 * ts.len(),
    decreases ts.len(),
{
    let f = |t: (usize, usize, usize)| spec_tri_vertices(ps, t);
    if ts.len() == 0 {
        assert(ts.flat_map(f) =~= Seq::empty());
    } else {
        let head = ts.drop_last();
        lemma_tri_flat_map_len(ps, head);
        head.lemma_flat_map_push(f, ts.last());
        assert(head.push(ts.last()) =~= ts);
    }
}

pub fn permuted_vertices(points: &Vec<Point3d>) -> (r: Vec<Vertex>)
    requires
        forall|i: int| 0 <= i < points@.len() ==> point3_in_range(#[trigger] points@[i]),
    ensures
        r@ == spec_permuted_vertices(points@),
{
    let perms: Vec<(usize, usize, usize)> = permutations3(points.len());
    let ghost f = |t: (usize, usize, usize)| spec_tri_vertices(points@, t);
    let mut out: Vec<Vertex> = Vec::new();
    proof {
        assert(perms@.take(0).flat_map(f) =~= Seq::empty());
    }
    let mut i: usize = 0;
    while i < perms.len()
        invariant
            0 <= i <= perms@.len(),
            perms@ == perm3_seq(points@.len() as usize),
            f == (|t: (usize, usize, usize)| spec_tri_vertices(points@, t)),
            forall|j: int| 0 <= j < points@.len() ==> point3_in_range(#[trigger] points@[j]),
            out@ == perms@.take(i as int).flat_map(f),
        decreases perms@.len() - i,
    {
        let t = perms[i];
        if t.0 < points.len() && t.1 < points.len() && t.2 < points.len() {
            let sum = points[t.0].plus(points[t.1]).plus(points[t.2]);
            let nv: (i64, i64, i64) = (
                fx_div(sum.x, FX_THREE),
                fx_div(sum.y, FX_THREE),
                fx_div(sum.z, FX_THREE),
            );
            let p0 = points[t.0];
            let p1 = points[t.1];
            let p2 = points[t.2];
            out.push(Vertex { position: (p0.x, p0.y, p0.z), normal: nv, texture: (0, 0) });
            out.push(Vertex { position: (p1.x, p1.y, p1.z), normal: nv, texture: (0, 0) });
            out.push(Vertex { position: (p2.x, p2.y, p2.z), normal: nv, texture: (0, 0) });
        }
        proof {
            perms@.lemma_flat_map_take_append(f, i as int);
            assert(out@ =~= perms@.take(i + 1 as int).flat_map(f));
        }
        i = i + 1;
    }
    proof {
        assert(perms@.take(perms@.len() as int) =~= perms@);
    }
    out
}

} // verus!
