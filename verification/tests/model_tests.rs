//! Behavioral checks of the scene model: entity vertex generation,
//! cache coherence, import and export.

use phobia::block::Block;
use phobia::entity::ModelEntity;
use phobia::extrude::Extrude;
use phobia::fx::FX_ONE;
use phobia::model::{ExportError, ImportError, Model};
use phobia::plane::Plane;
use phobia::point::{Point2d, Point3d};
use phobia::sketch::Sketch;

fn p3(x: i64, y: i64, z: i64) -> Point3d {
    Point3d { x, y, z }
}

#[test]
fn fresh_model_has_empty_buffer() {
    let mut model = Model::new();
    assert_eq!(model.vertex_buffer().len(), 0);
}

#[test]
fn block_fills_buffer_with_all_corner_triples() {
    let mut model = Model::new();
    let block = Block::two_points(p3(-FX_ONE, -FX_ONE, -FX_ONE), p3(FX_ONE, FX_ONE, FX_ONE));
    // 8 corner points; ordered triples of distinct corners: 8 * 7 * 6 =
    // 336 triangles, three vertices each.
    assert_eq!(block.points().len(), 8);
    assert_eq!(block.vertices().len(), 336 * 3);
    model.push(ModelEntity::Block(block));
    assert_eq!(model.vertex_buffer().len(), 336 * 3);
}

#[test]
fn block_corner_points() {
    let block = Block::two_points(p3(0, 0, 0), p3(FX_ONE, 2 * FX_ONE, 3 * FX_ONE));
    let pts = block.points();
    assert_eq!(pts[0], p3(0, 0, 0));
    assert_eq!(pts[1], p3(0, 2 * FX_ONE, 0));
    assert_eq!(pts[2], p3(FX_ONE, 0, 0));
    assert_eq!(pts[3], p3(FX_ONE, 2 * FX_ONE, 0));
    assert_eq!(pts[4], p3(0, 0, 3 * FX_ONE));
    assert_eq!(pts[5], p3(FX_ONE, 0, 3 * FX_ONE));
    assert_eq!(pts[6], p3(0, 2 * FX_ONE, 3 * FX_ONE));
    assert_eq!(pts[7], p3(FX_ONE, 2 * FX_ONE, 3 * FX_ONE));
}

#[test]
fn block_triangle_normals_are_averaged_positions() {
    let block = Block::two_points(p3(0, 0, 0), p3(3 * FX_ONE, 3 * FX_ONE, 3 * FX_ONE));
    let verts = block.vertices();
    // The first lexicographic triple is corners (0, 1, 2): points
    // (0,0,0), (0,3,0) and (3,0,0), averaging to (1,1,0).
    assert_eq!(verts[0].position, (0, 0, 0));
    assert_eq!(verts[1].position, (0, 3 * FX_ONE, 0));
    assert_eq!(verts[2].position, (3 * FX_ONE, 0, 0));
    assert_eq!(verts[0].normal, (FX_ONE, FX_ONE, 0));
    assert_eq!(verts[1].normal, (FX_ONE, FX_ONE, 0));
    assert_eq!(verts[2].normal, (FX_ONE, FX_ONE, 0));
    // The second lexicographic triple is corners (0, 1, 3): points
    // (0,0,0), (0,3,0) and (3,3,0), averaging to (1,2,0).
    assert_eq!(verts[3].position, (0, 0, 0));
    assert_eq!(verts[4].position, (0, 3 * FX_ONE, 0));
    assert_eq!(verts[5].position, (3 * FX_ONE, 3 * FX_ONE, 0));
    assert_eq!(verts[3].normal, (FX_ONE, 2 * FX_ONE, 0));
}

#[test]
fn cache_count_matches_entity_sum_across_pushes() {
    let mut model = Model::new();
    let mut expected: usize = 0;
    assert_eq!(model.vertex_buffer().len(), expected);
    let sketch = Sketch::with_points(vec![
        Point2d { x: 0, y: 0 },
        Point2d { x: FX_ONE, y: 0 },
        Point2d { x: FX_ONE, y: FX_ONE },
    ]);
    expected += sketch.vertices().len();
    model.push(ModelEntity::Sketch(sketch));
    assert_eq!(model.vertex_buffer().len(), expected);
    let block = Block::origin_and_max(p3(FX_ONE, FX_ONE, FX_ONE));
    expected += block.vertices().len();
    model.push(ModelEntity::Block(block));
    assert_eq!(model.vertex_buffer().len(), expected);
    // A second access without mutation serves the same cached buffer.
    assert_eq!(model.vertex_buffer().len(), expected);
    let extrude = Extrude {
        sketch: Sketch::with_points(vec![Point2d { x: 0, y: 0 }, Point2d { x: 1, y: 2 }]),
        dist: FX_ONE,
    };
    expected += extrude.vertices().len();
    model.push(ModelEntity::Extrude(extrude));
    assert_eq!(model.vertex_buffer().len(), expected);
}

#[test]
fn sketch_emits_one_vertex_per_point() {
    let sketch = Sketch::with_points(vec![
        Point2d { x: 10, y: 20 },
        Point2d { x: 30, y: 40 },
    ]);
    let verts = sketch.vertices();
    assert_eq!(verts.len(), 2);
    assert_eq!(verts[0].position, (10, 20, 0));
    assert_eq!(verts[1].position, (30, 40, 0));
    let pts = sketch.points();
    assert_eq!(pts[0], p3(10, 20, 0));
    assert_eq!(pts[1], p3(30, 40, 0));
}

#[test]
fn plane_projects_local_points() {
    let plane = Plane(p3(5, 6, 7));
    let world = plane.point(&Point2d { x: 100, y: 200 });
    assert_eq!(world, p3(100, 200, 7));
    let vertex = plane.vertex(&Point2d { x: 100, y: 200 });
    assert_eq!(vertex.position, (100, 200, 7));
    assert_eq!(vertex.normal, (5, 6, 7));
    assert_eq!(vertex.texture, (0, 0));
}

#[test]
fn extrude_pairs_points_along_z() {
    let sketch = Sketch::with_points(vec![
        Point2d { x: 10, y: 20 },
        Point2d { x: 30, y: 40 },
    ]);
    let extrude = Extrude { sketch, dist: 8 * FX_ONE };
    let pts = extrude.points();
    assert_eq!(pts.len(), 4);
    assert_eq!(pts[0], p3(10, 20, 0));
    assert_eq!(pts[1], p3(10, 20, 8 * FX_ONE));
    assert_eq!(pts[2], p3(30, 40, 0));
    assert_eq!(pts[3], p3(30, 40, 8 * FX_ONE));
    // The render output is exactly the paired vertices, two per
    // sketch point, with default normal and texture; no side walls.
    let verts = extrude.vertices();
    assert_eq!(verts.len(), 4);
    assert_eq!(verts[0].position, (10, 20, 0));
    assert_eq!(verts[1].position, (10, 20, 8 * FX_ONE));
    assert_eq!(verts[2].position, (30, 40, 0));
    assert_eq!(verts[3].position, (30, 40, 8 * FX_ONE));
    assert_eq!(verts[0].normal, (0, 0, 0));
    assert_eq!(verts[0].texture, (0, 0));
}

#[test]
fn extrude_of_one_point_gives_one_pair() {
    let sketch = Sketch::with_points(vec![Point2d { x: 5, y: 6 }]);
    let extrude = Extrude { sketch, dist: FX_ONE };
    let verts = extrude.vertices();
    assert_eq!(verts.len(), 2);
    assert_eq!(verts[0].position, (5, 6, 0));
    assert_eq!(verts[1].position, (5, 6, FX_ONE));
}

#[test]
fn entity_labels_in_history_order() {
    let mut model = Model::new();
    model.push(ModelEntity::Block(Block::origin_and_max(p3(1, 1, 1))));
    model.push(ModelEntity::Sketch(Sketch::new()));
    let labels = model.entities();
    assert_eq!(labels.len(), 2);
    assert_eq!(labels[0], "Block");
    assert_eq!(labels[1], "Sketch");
}

#[test]
fn load_replaces_scene_with_single_mesh() {
    let mut model = Model::new();
    model.push(ModelEntity::Block(Block::origin_and_max(p3(1, 1, 1))));
    let source = b"v 1 0 0\nv 0 1 0\nv 0 0 1\nf 1 2 3\n";
    assert!(model.load(source).is_ok());
    let labels = model.entities();
    assert_eq!(labels.len(), 1);
    assert_eq!(labels[0], "ImportedMesh");
    let buffer = model.vertex_buffer();
    assert_eq!(buffer.len(), 3);
    assert_eq!(buffer[0].position, (FX_ONE, 0, 0));
    assert_eq!(buffer[1].position, (0, FX_ONE, 0));
    assert_eq!(buffer[2].position, (0, 0, FX_ONE));
    // Without explicit texture or normal indices the documented
    // defaults fill in.
    assert_eq!(buffer[0].normal, (0, 0, 0));
    assert_eq!(buffer[0].texture, (0, 0));
}

#[test]
fn corrupt_load_leaves_scene_untouched() {
    let mut model = Model::new();
    model.push(ModelEntity::Block(Block::origin_and_max(p3(FX_ONE, FX_ONE, FX_ONE))));
    let before_len = model.vertex_buffer().len();
    let before_first = model.vertex_buffer()[0];
    // A zero vertex number is invalid wavefront content.
    let corrupt = b"v 0 1 2\nv 3 4 5\nf 0 1 2\n";
    let result = model.load(corrupt);
    assert_eq!(result, Err(ImportError::Malformed));
    let labels = model.entities();
    assert_eq!(labels.len(), 1);
    assert_eq!(labels[0], "Block");
    assert_eq!(model.vertex_buffer().len(), before_len);
    assert_eq!(model.vertex_buffer()[0], before_first);
}

#[test]
fn non_ascii_load_is_rejected_not_parsed() {
    let mut model = Model::new();
    model.push(ModelEntity::Block(Block::origin_and_max(p3(1, 1, 1))));
    // A no-break space (bytes C2 A0) before an object line: valid
    // UTF-8, but byte-indexed name slicing inside a parser could cut a
    // character in half; the importer rejects non-ASCII input outright
    // and the scene stays as it was.
    let tricky: [u8; 6] = [0xC2, 0xA0, b'o', b' ', b'x', b'\n'];
    assert_eq!(model.load(&tricky), Err(ImportError::Malformed));
    assert_eq!(model.entities().len(), 1);
    assert_eq!(model.entities()[0], "Block");
    // The same holds for a group line with a no-break space after `g`.
    let tricky_group: [u8; 5] = [b'g', 0xC2, 0xA0, b'x', b'\n'];
    assert_eq!(model.load(&tricky_group), Err(ImportError::Malformed));
    // And for arbitrary invalid UTF-8.
    let invalid: [u8; 4] = [b'v', b' ', 0xFF, b'\n'];
    assert_eq!(model.load(&invalid), Err(ImportError::Malformed));
    assert_eq!(model.entities().len(), 1);
}

#[test]
fn failed_import_reports_unreadable_source() {
    let mut model = Model::new();
    let result = model.load_import(Err(ImportError::Unreadable));
    assert_eq!(result, Err(ImportError::Unreadable));
    assert_eq!(model.entities().len(), 0);
}

#[test]
fn save_requires_an_imported_mesh_first() {
    let mut model = Model::new();
    assert_eq!(model.save().err(), Some(ExportError::UnsupportedScene));
    model.push(ModelEntity::Block(Block::origin_and_max(p3(1, 1, 1))));
    assert_eq!(model.save().err(), Some(ExportError::UnsupportedScene));
    let source = b"v 1 2 3\nf 1 1 1\n";
    assert!(model.load(source).is_ok());
    let saved = model.save();
    assert!(saved.is_ok());
    assert_eq!(saved.unwrap().position.len(), 1);
    // Later entities do not block the export; only the first one is
    // written, the documented single-entity limitation.
    model.push(ModelEntity::Block(Block::origin_and_max(p3(1, 1, 1))));
    let saved_again = model.save();
    assert!(saved_again.is_ok());
    assert_eq!(saved_again.unwrap().position.len(), 1);
}

#[test]
fn point_addition_saturates() {
    let a = p3(FX_ONE, 2, -3);
    let b = p3(5, 6, 7);
    assert_eq!(a.plus(b), p3(FX_ONE + 5, 8, 4));
    let big = p3(phobia::fx::FX_LIMIT, 0, 0);
    assert_eq!(big.plus(big).x, phobia::fx::FX_LIMIT);
    assert_eq!(a.to_array(), [FX_ONE, 2, -3]);
}
