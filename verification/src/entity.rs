//! The closed union of scene entities.  Each variant owns its geometric
//! description and produces its own renderable vertex list; the model
//! only aggregates.

use vstd::prelude::*;
use crate::block::{Block, spec_block_vertices};
use crate::extrude::Extrude;
use crate::point::Vertex;
use crate::sketch::{Sketch, spec_sketch_vertices};
use crate::wavefront::{MeshData, load_data, spec_mesh_vertices};

verus! {

/// One piece of scene geometry: an imported mesh, a sketch, a block or
/// an extrusion.
#[derive(Clone, Debug)]
pub enum ModelEntity {
    ImportedMesh(MeshData),
    Sketch(Sketch),
    Block(Block),
    Extrude(Extrude),
}

/// Structural bounds an entity's geometry keeps.
pub open spec fn spec_entity_wf(e: ModelEntity) -> bool {
    match e {
        ModelEntity::ImportedMesh(_) => true,
        ModelEntity::Sketch(s) => s.wf(),
        ModelEntity::Block(b) => b.wf(),
        ModelEntity::Extrude(x) => x.wf(),
    }
}

/// The vertex list each entity contributes to the render buffer.
pub open spec fn spec_entity_vertices(e: ModelEntity) -> Seq<Vertex> {
    match e {
        ModelEntity::ImportedMesh(m) => spec_mesh_vertices(m),
        ModelEntity::Sketch(s) => spec_sketch_vertices(s.plane_view(), s.points_view()),
        ModelEntity::Block(b) => spec_block_vertices(b.origin_view(), b.dim_view()),
        ModelEntity::Extrude(x) => x.vertices_spec(),
    }
}

/// The label each entity shows in the model history listing.
pub open spec fn spec_entity_label(e: ModelEntity) -> Seq<char> {
    match e {
        ModelEntity::ImportedMesh(_) => "ImportedMesh"@,
        ModelEntity::Sketch(_) => "Sketch"@,
        ModelEntity::Block(_) => "Block"@,
        ModelEntity::Extrude(_) => "Extrude"@,
    }
}

impl ModelEntity {
    /// The renderable vertex list of this entity.
    pub fn vertices(&self) -> (r: Vec<Vertex>)
        requires
            spec_entity_wf(*self),
        ensures
            r@ == spec_entity_vertices(*self),
    {
        match self {
            ModelEntity::ImportedMesh(m) => load_data(m),
            ModelEntity::Sketch(s) => s.vertices(),
            ModelEntity::Block(b) => b.vertices(),
            ModelEntity::Extrude(x) => x.vertices(),
        }
    }

    /// A human-readable name for the history listing.
    pub fn label(&self) -> (r: String)
        ensures
            r@ == spec_entity_label(*self),
    {
        match self {
            ModelEntity::ImportedMesh(_) => "ImportedMesh".to_owned(),
            ModelEntity::Sketch(_) => "Sketch".to_owned(),
            ModelEntity::Block(_) => "Block".to_owned(),
            ModelEntity::Extrude(_) => "Extrude".to_owned(),
        }
    }
}

} // verus!
