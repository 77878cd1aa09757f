//! The scene model: an ordered sequence of entities and a lazily
//! rebuilt, cached vertex buffer.
//!
//! The cache is either absent or exactly what re-deriving from the
//! current entity sequence would produce; every mutation clears it
//! through one explicit method, so it can never become a second source
//! of truth.

use vstd::prelude::*;
use crate::entity::{ModelEntity, spec_entity_label, spec_entity_vertices, spec_entity_wf};
use crate::point::Vertex;
use crate::wavefront::MeshData;

verus! {

/// Why an import was rejected: the source could not be read at all, or
/// its contents did not parse as a mesh.
#[derive(Clone, Copy, Debug, PartialEq, Eq, Structural)]
pub enum ImportError {
    Unreadable,
    Malformed,
}

/// Why a save was refused: only a scene whose first entity is an
/// imported mesh can be exported.
#[derive(Clone, Copy, Debug, PartialEq, Eq, Structural)]
pub enum ExportError {
    UnsupportedScene,
}

/// The concatenation of every entity's vertices, in entity order.
pub open spec fn spec_model_vertices(g: Seq<ModelEntity>) -> Seq<Vertex> {
    g.flat_map(|e: ModelEntity| spec_entity_vertices(e))
}

#[derive(Debug)]
pub struct Model {
    geometry: Vec<ModelEntity>,
    vb: Option<Vec<Vertex>>,
}

impl Model {
    /// The entity sequence, in insertion (display and history) order.
    pub closed spec fn entities_view(&self) -> Seq<ModelEntity> {
        self.geometry@
    }

    /// The cached vertex buffer, if one is present.
    pub closed spec fn cache_view(&self) -> Option<Seq<Vertex>> {
        match self.vb {
            Option::Some(ref v) => Option::Some(v@),
            Option::None => Option::None,
        }
    }

    /// Every entity well-formed, and the cache, when present, exactly
    /// the derivation from the current entity sequence.
    pub open spec fn wf(&self) -> bool {
        &&& forall|i: int|
            0 <= i < self.entities_view().len() ==> spec_entity_wf(#[trigger] self.entities_view()[i])
        &&& match self.cache_view() {
            Option::Some(s) => s == spec_model_vertices(self.entities_view()),
            Option::None => true,
        }
    }

    /// An empty scene with no cached buffer.
    pub fn new() -> (r: Model)
        ensures
            r.wf(),
            r.entities_view() == Seq::<ModelEntity>::empty(),
            r.cache_view() is None,
    {
        Model { geometry: Vec::new(), vb: Option::None }
    }

    /// Clear the cached buffer; called by every mutation.
    fn invalidate(&mut self)
        ensures
            final(self).entities_view() == old(self).entities_view(),
            final(self).cache_view() is None,
    {
        self.vb = Option::None;
    }

    /// Append an entity, invalidating the cache.  Order is preserved.
    pub fn push(&mut self, entity: ModelEntity)
        requires
            old(self).wf(),
            spec_entity_wf(entity),
        ensures
            final(self).wf(),
            final(self).entities_view() == old(self).entities_view().push(entity),
            final(self).cache_view() is None,
    {
        self.geometry.push(entity);
        self.invalidate();
        proof {
            let newseq = self.entities_view();
            let oldseq = old(self).entities_view();
            assert forall|i: int| 0 <= i < newseq.len() implies spec_entity_wf(
                #[trigger] newseq[i],
            ) by {
                if i < oldseq.len() {
                    assert(newseq[i] == oldseq[i]);
                } else {
                    assert(newseq[i] == entity);
                }
            }
        }
    }

    /// The history labels of the entities, in order.
    pub fn entities(&self) -> (r: Vec<String>)
        ensures
            r@.len() == self.entities_view().len(),
            forall|i: int| 0 <= i < r@.len() ==> (#[trigger] r@[i])@ == spec_entity_label(
                self.entities_view()[i],
            ),
    {
        let mut out: Vec<String> = Vec::new();
        let mut i: usize = 0;
        while i < self.geometry.len()
            invariant
                0 <= i <= self.entities_view().len(),
                out@.len() == i,
                forall|j: int| 0 <= j < i ==> (#[trigger] out@[j])@ == spec_entity_label(
                    self.entities_view()[j],
                ),
            decreases self.entities_view().len() - i,
        {
            out.push(self.geometry[i].label());
            i = i + 1;
        }
        out
    }

    /// The mesh to export: defined exactly when the first entity is an
    /// imported mesh; any other scene shape is refused.  Entities after
    /// the first are not part of the export — the documented
    /// single-entity limitation.
    pub fn save(&self) -> (r: Result<&MeshData, ExportError>)
        ensures
            match r {
                Result::Ok(m) => {
                    &&& self.entities_view().len() >= 1
                    &&& self.entities_view()[0] == ModelEntity::ImportedMesh(*m)
                },
                Result::Err(e) => {
                    &&& e == ExportError::UnsupportedScene
                    &&& !(self.entities_view().len() >= 1 && self.entities_view()[0]
                        is ImportedMesh)
                },
            },
    {
        if self.geometry.len() >= 1 {
            match &self.geometry[0] {
                ModelEntity::ImportedMesh(m) => Result::Ok(m),
                _ => Result::Err(ExportError::UnsupportedScene),
            }
        } else {
            Result::Err(ExportError::UnsupportedScene)
        }
    }

    /// Install the outcome of an import: a parsed mesh replaces the
    /// whole entity sequence by a single imported-mesh entity and
    /// clears the cache; a failed import leaves the scene untouched
    /// and hands the error back.
    pub fn load_import(&mut self, import: Result<MeshData, ImportError>) -> (r: Result<
        (),
        ImportError,
    >)
        requires
            old(self).wf(),
        ensures
            final(self).wf(),
            match import {
                Result::Ok(m) => {
                    &&& r is Ok
                    &&& final(self).entities_view() == seq![ModelEntity::ImportedMesh(m)]
                    &&& final(self).cache_view() is None
                },
                Result::Err(e) => {
                    &&& r is Err
                    &&& r->Err_0 == e
                    &&& final(self).entities_view() == old(self).entities_view()
                    &&& final(self).cache_view() == old(self).cache_view()
                },
            },
    {
        match import {
            Result::Ok(m) => {
                let mut fresh: Vec<ModelEntity> = Vec::new();
                fresh.push(ModelEntity::ImportedMesh(m));
                self.geometry = fresh;
                self.invalidate();
                proof {
                    assert(self.entities_view() =~= seq![
                        ModelEntity::ImportedMesh(m),
                    ]);
                }
                Result::Ok(())
            },
            Result::Err(e) => Result::Err(e),
        }
    }

    /// Parse wavefront bytes and install the result: when the parser
    /// accepts the (ASCII) content, the scene becomes the single
    /// imported-mesh entity decoded from exactly what the parser
    /// yielded and the cache is cleared; on non-ASCII content or any
    /// parse failure the matching error comes back and the scene and
    /// the cache stay exactly as they were.
    pub fn load(&mut self, bytes: &[u8]) -> (r: Result<(), ImportError>)
        requires
            old(self).wf(),
        ensures
            final(self).wf(),
            !crate::importer::ascii_bytes(bytes@) ==> {
                &&& r is Err
                &&& r->Err_0 == ImportError::Malformed
                &&& final(self).entities_view() == old(self).entities_view()
                &&& final(self).cache_view() == old(self).cache_view()
            },
            crate::importer::ascii_bytes(bytes@) ==> match crate::importer::spec_parse_obj(
                bytes@,
            ) {
                Result::Ok(raw) => {
                    &&& r is Ok
                    &&& final(self).entities_view().len() == 1
                    &&& final(self).entities_view()[0] matches ModelEntity::ImportedMesh(m)
                        && crate::importer::mesh_matches_raw(m, raw)
                    &&& final(self).cache_view() is None
                },
                Result::Err(e) => {
                    &&& r is Err
                    &&& r->Err_0 == e
                    &&& final(self).entities_view() == old(self).entities_view()
                    &&& final(self).cache_view() == old(self).cache_view()
                },
            },
    {
        let import = crate::importer::import(bytes);
        self.load_import(import)
    }

    /// The render buffer: rebuilt from the entity sequence when the
    /// cache is absent, and handed out from the cache otherwise.  The
    /// count always equals the sum of the entities' own vertex counts.
    pub fn vertex_buffer(&mut self) -> (r: &Vec<Vertex>)
        requires
            old(self).wf(),
        ensures
            final(self).wf(),
            final(self).entities_view() == old(self).entities_view(),
            r@ == spec_model_vertices(final(self).entities_view()),
            final(self).cache_view() == Option::Some(r@),
    {
        if self.vb.is_none() {
            let ghost g = self.geometry@;
            let ghost f = |e: ModelEntity| spec_entity_vertices(e);
            let mut built: Vec<Vertex> = Vec::new();
            proof {
                assert(g.take(0).flat_map(f) =~= Seq::<Vertex>::empty());
            }
            let mut i: usize = 0;
            while i < self.geometry.len()
                invariant
                    0 <= i <= g.len(),
                    self.geometry@ == g,
                    self.wf(),
                    f == (|e: ModelEntity| spec_entity_vertices(e)),
                    built@ == g.take(i as int).flat_map(f),
                decreases g.len() - i,
            {
                proof {
                    assert(spec_entity_wf(self.entities_view()[i as int]));
                    assert(self.entities_view()[i as int] == g[i as int]);
                }
                let mut part = self.geometry[i].vertices();
                built.append(&mut part);
                proof {
                    g.lemma_flat_map_take_append(f, i as int);
                    assert(built@ =~= g.take(i + 1 as int).flat_map(f));
                }
                i = i + 1;
            }
            proof {
                assert(g.take(g.len() as int) =~= g);
                assert(built@ == spec_model_vertices(g));
            }
            self.vb = Option::Some(built);
            proof {
                let news = self.entities_view();
                let olds = old(self).entities_view();
                assert(news == olds);
                assert forall|j: int| 0 <= j < news.len() implies spec_entity_wf(
                    #[trigger] news[j],
                ) by {
                    assert(news[j] == olds[j]);
                    assert(spec_entity_wf(olds[j]));
                }
            }
        }
        self.vb.as_ref().unwrap()
    }
}

} // verus!
