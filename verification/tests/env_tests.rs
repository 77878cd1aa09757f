//! Checks of the mode state machine: camera ownership, sketch point
//! collection and mode switches.

use phobia::camera::{CameraState, InputEvent, MouseButton, UPDATE_DISTANCE};
use phobia::entity::ModelEntity;
use phobia::env::{
    ApplicationEnvironment, ApplicationEnvironmentSwitch, Modeler, Sketcher,
};
use phobia::environment::Modeling;
use phobia::menu::MenuResult;
use phobia::model::Model;
use phobia::controls::MouseController;
use phobia::fx::FX_ONE;
use phobia::point::Point2d;

#[test]
fn modeler_routes_input_to_camera() {
    let mut modeler = Modeler::new(CameraState::new());
    modeler.handle_window_event(&InputEvent::KeyDown(phobia::camera::Key::W));
    modeler.camera.update(UPDATE_DISTANCE);
    assert_eq!(modeler.camera.position, (100_000, 100_000, 990_000));
}

#[test]
fn sketcher_collects_distinct_released_points() {
    let mut sketcher = Sketcher::new(CameraState::new());
    sketcher.handle_window_event(&InputEvent::CursorMoved { x: 10, y: 20 });
    sketcher.handle_window_event(&InputEvent::MouseInput {
        button: MouseButton::Left,
        pressed: false,
    });
    sketcher.handle_window_event(&InputEvent::MouseInput {
        button: MouseButton::Left,
        pressed: false,
    });
    sketcher.handle_window_event(&InputEvent::CursorMoved { x: 30, y: 40 });
    sketcher.handle_window_event(&InputEvent::MouseInput {
        button: MouseButton::Left,
        pressed: false,
    });
    // A release without movement is a duplicate and is dropped.
    let entity = sketcher.finalize();
    match entity {
        ModelEntity::Sketch(s) => {
            let pts = s.points();
            assert_eq!(pts.len(), 2);
            assert_eq!(pts[0].x, 10);
            assert_eq!(pts[1].x, 30);
        },
        _ => panic!("expected a sketch entity"),
    }
}

#[test]
fn environment_switches_between_modes() {
    let mut env = ApplicationEnvironment::new();
    env.update();
    assert!(env.apply_switch(ApplicationEnvironmentSwitch::EnterSketcher).is_none());
    env.process_input(&InputEvent::CursorMoved { x: 7, y: 8 });
    env.process_input(&InputEvent::MouseInput { button: MouseButton::Left, pressed: false });
    env.update();
    let sketch = Sketcher::new(CameraState::new()).finalize();
    let out = env.apply_switch(ApplicationEnvironmentSwitch::ExitSketcher(Some(sketch)));
    assert!(out.is_some());
    let mut model = Model::new();
    if let Some(entity) = out {
        model.push(entity);
    }
    assert_eq!(model.entities()[0], "Sketch");
}

#[test]
fn plain_modeling_mode_constructs() {
    let _mode = Modeling::new();
}

#[test]
fn mouse_controller_normalizes_and_emits_points() {
    let size: (i64, i64) = (1024 * FX_ONE, 768 * FX_ONE);
    let mut mouse = MouseController::new();
    mouse.update_position((512 * FX_ONE, 384 * FX_ONE), size);
    assert_eq!(mouse.position(), Point2d { x: 0, y: 0 });
    mouse.update_position((0, 0), size);
    assert_eq!(mouse.position(), Point2d { x: -FX_ONE, y: FX_ONE });
    let none = mouse.handle_event(
        &InputEvent::MouseInput { button: MouseButton::Left, pressed: true },
        size,
    );
    assert!(none.is_none());
    let sent = mouse.handle_event(
        &InputEvent::MouseInput { button: MouseButton::Left, pressed: false },
        size,
    );
    assert_eq!(sent, Some(Point2d { x: -FX_ONE, y: FX_ONE }));
    let moved = mouse.handle_event(&InputEvent::CursorMoved { x: 1024 * FX_ONE, y: 768 * FX_ONE }, size);
    assert!(moved.is_none());
    assert_eq!(mouse.position(), Point2d { x: FX_ONE, y: -FX_ONE });
}

#[test]
fn menu_results_carry_paths() {
    let open = MenuResult::Open(String::from("part.ph"));
    match open {
        MenuResult::Open(path) => assert_eq!(path, "part.ph"),
        _ => panic!("expected an open request"),
    }
    let import = MenuResult::ImportObj(String::from("cube.obj"));
    assert!(matches!(import, MenuResult::ImportObj(_)));
    assert!(matches!(MenuResult::New, MenuResult::New));
    assert!(matches!(MenuResult::Settings, MenuResult::Settings));
    assert!(matches!(MenuResult::Save(String::new()), MenuResult::Save(_)));
}
