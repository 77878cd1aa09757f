//! Behavioral checks of the navigation camera: integration, wrapping,
//! clamping, matrix derivation and input translation.

use phobia::camera::{CameraState, InputEvent, Key, MouseButton, UPDATE_DISTANCE};
use phobia::fx::{FX_ONE, FX_TWO_PI};

fn to_real(v: i64) -> f64 {
    v as f64 / FX_ONE as f64
}

#[test]
fn defaults() {
    let cam = CameraState::new();
    assert_eq!(cam.position, (100_000, 100_000, 1_000_000));
    assert_eq!(cam.rotation, (500_000, 1_000_000, 0));
}

#[test]
fn forward_key_moves_along_direction() {
    let mut cam = CameraState::new();
    cam.process_input(&InputEvent::KeyDown(Key::W));
    cam.update(10_000);
    // The default direction is (0, 0, -1): one step of 0.01 moves the
    // position exactly 0.01 along -z, nothing else changes.
    assert_eq!(cam.position, (100_000, 100_000, 990_000));
    assert_eq!(cam.rotation, (500_000, 1_000_000, 0));
    cam.process_input(&InputEvent::KeyUp(Key::W));
    cam.update(10_000);
    assert_eq!(cam.position, (100_000, 100_000, 990_000));
}

#[test]
fn sideways_and_vertical_keys() {
    let mut cam = CameraState::new();
    // With direction (0, 0, -1) the side axis is (1, 0, 0) and the up
    // axis (0, 1, 0).
    cam.process_input(&InputEvent::KeyDown(Key::D));
    cam.update(10_000);
    assert_eq!(cam.position, (110_000, 100_000, 1_000_000));
    cam.process_input(&InputEvent::KeyUp(Key::D));
    cam.process_input(&InputEvent::KeyDown(Key::Up));
    cam.update(10_000);
    assert_eq!(cam.position, (110_000, 110_000, 1_000_000));
}

#[test]
fn rotation_stays_wrapped_over_any_update_sequence() {
    let mut cam = CameraState::new();
    cam.process_input(&InputEvent::KeyDown(Key::Right));
    let mut i: usize = 0;
    while i < 50 {
        cam.update(900_000);
        let (a, b, c) = cam.rotation;
        assert!(0 <= a && a < FX_TWO_PI);
        assert!(0 <= b && b < FX_TWO_PI);
        assert!(0 <= c && c < FX_TWO_PI);
        i += 1;
    }
    cam.set_rotation((-3 * FX_TWO_PI - 7, 123 * FX_TWO_PI, 5));
    cam.update(10_000);
    let (a, b, c) = cam.rotation;
    assert!(0 <= a && a < FX_TWO_PI);
    assert!(0 <= b && b < FX_TWO_PI);
    assert!(0 <= c && c < FX_TWO_PI);
}

#[test]
fn position_stays_in_unit_box() {
    let mut cam = CameraState::new();
    cam.set_position((5 * FX_ONE, -9 * FX_ONE, 300_000));
    cam.process_input(&InputEvent::KeyDown(Key::W));
    let mut i: usize = 0;
    while i < 30 {
        cam.update(800_000);
        let (x, y, z) = cam.position;
        assert!(-FX_ONE <= x && x <= FX_ONE);
        assert!(-FX_ONE <= y && y <= FX_ONE);
        assert!(-FX_ONE <= z && z <= FX_ONE);
        i += 1;
    }
}

#[test]
fn perspective_is_idempotent() {
    let cam = CameraState::new();
    let first = cam.get_perspective();
    let second = cam.get_perspective();
    assert_eq!(first, second);
    // Entries for the default 1024x768 viewport, derived by hand from
    // the fixed right-angle field of view and the 0.1 / 1024 depth range.
    assert_eq!(first[0][0], 750_000);
    assert_eq!(first[1][1], FX_ONE);
    assert_eq!(first[2][2], 1_000_195);
    assert_eq!(first[2][3], FX_ONE);
    assert_eq!(first[3][2], -200_019);
    assert_eq!(first[3][3], 0);
}

#[test]
fn perspective_tracks_resize() {
    let mut cam = CameraState::new();
    cam.process_input(&InputEvent::Resized { width: 800 * FX_ONE, height: 800 * FX_ONE });
    let square = cam.get_perspective();
    assert_eq!(square[0][0], FX_ONE);
}

#[test]
fn view_translation_row_for_default_state() {
    let cam = CameraState::new();
    let view = cam.get_view();
    // For position (0.1, 0.1, 1.0) and direction (0, 0, -1) the
    // translation row is (-p.s, -p.u, -p.f) = (-0.1, -0.1, 1.0).
    assert!((to_real(view[3][0]) + 0.1).abs() < 1e-5);
    assert!((to_real(view[3][1]) + 0.1).abs() < 1e-5);
    assert!((to_real(view[3][2]) - 1.0).abs() < 1e-5);
    assert_eq!(view[3][3], FX_ONE);
    // The basis columns are exactly the world axes here.
    assert_eq!(view[0][0], FX_ONE);
    assert_eq!(view[1][1], FX_ONE);
    assert_eq!(view[2][2], -FX_ONE);
}

#[test]
fn view_basis_is_orthonormal_for_generic_directions() {
    let dirs: [(i64, i64, i64); 4] = [
        (300_000, 400_000, -866_025),
        (-500_000, 200_000, 700_000),
        (123_456, -654_321, 999_999),
        (1_000_000, 500_000, 250_000),
    ];
    for d in dirs {
        let mut cam = CameraState::new();
        cam.set_direction(d);
        let view = cam.get_view();
        let col = |j: usize| [to_real(view[0][j]), to_real(view[1][j]), to_real(view[2][j])];
        let s = col(0);
        let u = col(1);
        let f = col(2);
        let dot = |a: [f64; 3], b: [f64; 3]| a[0] * b[0] + a[1] * b[1] + a[2] * b[2];
        assert!((dot(s, s) - 1.0).abs() < 1e-3);
        assert!((dot(u, u) - 1.0).abs() < 1e-3);
        assert!((dot(f, f) - 1.0).abs() < 1e-3);
        assert!(dot(s, u).abs() < 1e-3);
        assert!(dot(s, f).abs() < 1e-3);
        assert!(dot(u, f).abs() < 1e-3);
    }
}

#[test]
fn rotation_matrices_match_reals() {
    let mut cam = CameraState::new();
    cam.set_rotation((700_000, 2_500_000, 5_400_000));
    let rx = cam.get_x_rotation();
    let ry = cam.get_y_rotation();
    let rz = cam.get_z_rotation();
    let (a, b, c) = (0.7f64, 2.5f64, 5.4f64);
    assert!((to_real(rx[1][1]) - a.cos()).abs() < 1e-3);
    assert!((to_real(rx[1][2]) - a.sin()).abs() < 1e-3);
    assert!((to_real(rx[2][1]) + a.sin()).abs() < 1e-3);
    assert!((to_real(ry[0][0]) - b.cos()).abs() < 1e-3);
    assert!((to_real(ry[0][2]) + b.sin()).abs() < 1e-3);
    assert!((to_real(rz[0][1]) - c.sin()).abs() < 1e-3);
    assert_eq!(rx[0][0], FX_ONE);
    assert_eq!(ry[1][1], FX_ONE);
    assert_eq!(rz[2][2], FX_ONE);
}

#[test]
fn degenerate_viewport_and_direction_stay_total() {
    let mut cam = CameraState::new();
    // A zero-height viewport cannot form a quotient: the aspect-bound
    // entries read zero instead of failing.
    cam.set_aspect_ratio(1024 * FX_ONE, 0);
    assert_eq!(cam.get_aspect_ratio(), 0);
    let persp = cam.get_perspective();
    assert_eq!(persp[0][0], 0);
    assert_eq!(persp[1][1], FX_ONE);
    // A zero-length direction has no unit scaling: the basis columns
    // collapse to zero rather than failing, and position updates under
    // it stand still.
    cam.set_direction((0, 0, 0));
    let view = cam.get_view();
    assert_eq!(view[0][0], 0);
    assert_eq!(view[1][1], 0);
    assert_eq!(view[2][2], 0);
    cam.process_input(&InputEvent::KeyDown(Key::W));
    cam.update(10_000);
    assert_eq!(cam.position, (100_000, 100_000, 1_000_000));
    // Dragging against a zero-sized viewport contributes no rotation.
    cam.process_input(&InputEvent::MouseInput { button: MouseButton::Left, pressed: true });
    let before = cam.rotation;
    cam.process_input(&InputEvent::CursorMoved { x: 50 * FX_ONE, y: 60 * FX_ONE });
    assert_eq!(cam.rotation.0, before.0);
}

#[test]
fn rotation_reset_keys() {
    let mut cam = CameraState::new();
    cam.process_input(&InputEvent::KeyDown(Key::Key1));
    cam.update(300_000);
    assert_eq!(cam.rotation.0, 800_000);
    cam.process_input(&InputEvent::KeyUp(Key::Key1));
    cam.process_input(&InputEvent::KeyDown(Key::R));
    assert_eq!(cam.rotation, (0, 0, 0));
    cam.process_input(&InputEvent::KeyDown(Key::T));
    assert_eq!(cam.rotation, (500_000, 1_000_000, 0));
}

#[test]
fn drag_rotates_by_pointer_delta() {
    let mut cam = CameraState::new();
    // Anchor the pointer, press the primary button, then drag right by
    // a tenth of the viewport width: the yaw angle grows by 0.1.
    cam.process_input(&InputEvent::CursorMoved { x: 0, y: 0 });
    cam.process_input(&InputEvent::MouseInput { button: MouseButton::Left, pressed: true });
    cam.process_input(&InputEvent::CursorMoved { x: 102_400_000, y: 0 });
    assert_eq!(cam.rotation.1, 1_100_000);
    assert_eq!(cam.rotation.0, 500_000);
    // Releasing the button stops drag rotation.
    cam.process_input(&InputEvent::MouseInput { button: MouseButton::Left, pressed: false });
    cam.process_input(&InputEvent::CursorMoved { x: 0, y: 0 });
    assert_eq!(cam.rotation.1, 1_100_000);
}

#[test]
fn wheel_pulses_translation() {
    let mut cam = CameraState::new();
    // A vertical scroll of 2.0 moves two units along the forward axis
    // (0, 0, -1), clamped into the unit box.
    cam.process_input(&InputEvent::MouseWheel { dx: 0, dy: 2_000_000 });
    assert_eq!(cam.position, (100_000, 100_000, -1_000_000));
    // Intents are cleared afterwards: a later update stands still.
    cam.update(UPDATE_DISTANCE);
    assert_eq!(cam.position, (100_000, 100_000, -1_000_000));
}
