//! The imported-mesh data model and its flattening into render vertices.
//!
//! A mesh holds indexed position, texture and normal arrays and, per
//! object and group, polygons of index triples, as the mesh importer
//! yields them.  Flattening walks objects, groups, polygons and their
//! vertices in order and emits one flat vertex record each, substituting
//! the documented defaults (zero normal, zero texture, zero position)
//! wherever an index names no array entry.

use vstd::prelude::*;
use crate::point::Vertex;

verus! {

/// One polygon corner: a position index with optional texture and
/// normal indices.
#[derive(Clone, Copy, Debug, PartialEq, Eq)]
pub struct PolyVertex {
    pub position: usize,
    pub texture: Option<usize>,
    pub normal: Option<usize>,
}

/// A named group of simple polygons.
#[derive(Clone, Debug)]
pub struct MeshGroup {
    pub name: String,
    pub polys: Vec<Vec<PolyVertex>>,
}

/// A named object: a list of groups.
#[derive(Clone, Debug)]
pub struct MeshObject {
    pub name: String,
    pub groups: Vec<MeshGroup>,
}

/// A whole imported mesh, with fixed-point attribute arrays.
#[derive(Clone, Debug)]
pub struct MeshData {
    pub position: Vec<(i64, i64, i64)>,
    pub texture: Vec<(i64, i64)>,
    pub normal: Vec<(i64, i64, i64)>,
    pub objects: Vec<MeshObject>,
}

/// The flat vertex record of one polygon corner, with defaults for
/// absent or out-of-range attribute indices.
pub open spec fn spec_corner_vertex(m: MeshData, v: PolyVertex) -> Vertex {
    let position = if v.position < m.position@.len() {
        m.position@[v.position as int]
    } else {
        (0, 0, 0)
    };
    let texture = match v.texture {
        Some(t) => if t < m.texture@.len() {
            m.texture@[t as int]
        } else {
            (0, 0)
        },
        None => (0, 0),
    };
    let normal = match v.normal {
        Some(t) => if t < m.normal@.len() {
            m.normal@[t as int]
        } else {
            (0, 0, 0)
        },
        None => (0, 0, 0),
    };
    Vertex { position, normal, texture }
}

/// The vertices of one polygon, in corner order.
pub open spec fn spec_poly_vertices(m: MeshData, poly: Seq<PolyVertex>) -> Seq<Vertex> {
    poly.map_values(|v: PolyVertex| spec_corner_vertex(m, v))
}

/// The vertices of one group: its polygons flattened in order.
pub open spec fn spec_group_vertices(m: MeshData, g: MeshGroup) -> Seq<Vertex> {
    g.polys@.flat_map(|poly: Vec<PolyVertex>| spec_poly_vertices(m, poly@))
}

/// The vertices of one object: its groups flattened in order.
pub open spec fn spec_object_vertices(m: MeshData, o: MeshObject) -> Seq<Vertex> {
    o.groups@.flat_map(|g: MeshGroup| spec_group_vertices(m, g))
}

/// The whole mesh flattened: every object, group, polygon and corner,
/// in file order.
pub open spec fn spec_mesh_vertices(m: MeshData) -> Seq<Vertex> {
    m.objects@.flat_map(|o: MeshObject| spec_object_vertices(m, o))
}

fn corner_vertex(m: &MeshData, v: &PolyVertex) -> (r: Vertex)
    ensures
        r == spec_corner_vertex(*m, *v),
{
    let position: (i64, i64, i64) = if v.position < m.position.len() {
        m.position[v.position]
    } else {
        (0, 0, 0)
    };
    let texture: (i64, i64) = match v.texture {
        Some(t) => if t < m.texture.len() {
            m.texture[t]
        } else {
            (0, 0)
        },
        None => (0, 0),
    };
    let normal: (i64, i64, i64) = match v.normal {
        Some(t) => if t < m.normal.len() {
            m.normal[t]
        } else {
            (0, 0, 0)
        },
        None => (0, 0, 0),
    };
    Vertex { position, normal, texture }
}

fn poly_vertices(m: &MeshData, poly: &Vec<PolyVertex>) -> (r: Vec<Vertex>)
    ensures
        r@ == spec_poly_vertices(*m, poly@),
{
    let mut out: Vec<Vertex> = Vec::new();
    let ghost f = |v: PolyVertex| spec_corner_vertex(*m, v);
    let mut i: usize = 0;
    while i < poly.len()
        invariant
            0 <= i <= poly@.len(),
            f == (|v: PolyVertex| spec_corner_vertex(*m, v)),
            out@ == poly@.take(i as int).map_values(f),
        decreases poly@.len() - i,
    {
        out.push(corner_vertex(m, &poly[i]));
        proof {
            assert(poly@.take(i + 1 as int).drop_last() =~= poly@.take(i as int));
            assert(out@ =~= poly@.take(i + 1 as int).map_values(f));
        }
        i = i + 1;
    }
    proof {
        assert(poly@.take(poly@.len() as int) =~= poly@);
    }
    out
}

fn group_vertices(m: &MeshData, g: &MeshGroup) -> (r: Vec<Vertex>)
    ensures
        r@ == spec_group_vertices(*m, *g),
{
    let mut out: Vec<Vertex> = Vec::new();
    let ghost f = |poly: Vec<PolyVertex>| spec_poly_vertices(*m, poly@);
    proof {
        assert(g.polys@.take(0).flat_map(f) =~= Seq::<Vertex>::empty());
    }
    let mut i: usize = 0;
    while i < g.polys.len()
        invariant
            0 <= i <= g.polys@.len(),
            f == (|poly: Vec<PolyVertex>| spec_poly_vertices(*m, poly@)),
            out@ == g.polys@.take(i as int).flat_map(f),
        decreases g.polys@.len() - i,
    {
        let mut part = poly_vertices(m, &g.polys[i]);
        out.append(&mut part);
        proof {
            g.polys@.lemma_flat_map_take_append(f, i as int);
            assert(out@ =~= g.polys@.take(i + 1 as int).flat_map(f));
        }
        i = i + 1;
    }
    proof {
        assert(g.polys@.take(g.polys@.len() as int) =~= g.polys@);
    }
    out
}

fn object_vertices(m: &MeshData, o: &MeshObject) -> (r: Vec<Vertex>)
    ensures
        r@ == spec_object_vertices(*m, *o),
{
    let mut out: Vec<Vertex> = Vec::new();
    let ghost f = |g: MeshGroup| spec_group_vertices(*m, g);
    proof {
        assert(o.groups@.take(0).flat_map(f) =~= Seq::<Vertex>::empty());
    }
    let mut i: usize = 0;
    while i < o.groups.len()
        invariant
            0 <= i <= o.groups@.len(),
            f == (|g: MeshGroup| spec_group_vertices(*m, g)),
            out@ == o.groups@.take(i as int).flat_map(f),
        decreases o.groups@.len() - i,
    {
        let mut part = group_vertices(m, &o.groups[i]);
        out.append(&mut part);
        proof {
            o.groups@.lemma_flat_map_take_append(f, i as int);
            assert(out@ =~= o.groups@.take(i + 1 as int).flat_map(f));
        }
        i = i + 1;
    }
    proof {
        assert(o.groups@.take(o.groups@.len() as int) =~= o.groups@);
    }
    out
}

/// Flatten a whole mesh into the render vertex list.
pub fn load_data(data: &MeshData) -> (r: Vec<Vertex>)
    ensures
        r@ == spec_mesh_vertices(*data),
{
    let mut out: Vec<Vertex> = Vec::new();
    let ghost f = |o: MeshObject| spec_object_vertices(*data, o);
    proof {
        assert(data.objects@.take(0).flat_map(f) =~= Seq::<Vertex>::empty());
    }
    let mut i: usize = 0;
    while i < data.objects.len()
        invariant
            0 <= i <= data.objects@.len(),
            f == (|o: MeshObject| spec_object_vertices(*data, o)),
            out@ == data.objects@.take(i as int).flat_map(f),
        decreases data.objects@.len() - i,
    {
        let mut part = object_vertices(data, &data.objects[i]);
        out.append(&mut part);
        proof {
            data.objects@.lemma_flat_map_take_append(f, i as int);
            assert(out@ =~= data.objects@.take(i + 1 as int).flat_map(f));
        }
        i = i + 1;
    }
    proof {
        assert(data.objects@.take(data.objects@.len() as int) =~= data.objects@);
    }
    out
}

} // verus!
