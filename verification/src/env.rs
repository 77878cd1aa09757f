//! The editing environments: a modeling mode that navigates the camera
//! and a sketching mode that collects 2D points, as one tagged state
//! machine.  The camera has a single owner — whichever mode is active —
//! and moves between modes on an explicit switch, so no shared-state
//! locking is needed anywhere.

use vstd::prelude::*;
use crate::camera::{
    CameraState, InputEvent, spec_process_input, spec_update, CamV, UPDATE_DISTANCE,
};
use crate::entity::{ModelEntity, spec_entity_wf};
use crate::fx::{fx_clip, fx_in_range, spec_clip};
use crate::point::{Point2d, point2_in_range};
use crate::sketch::Sketch;

verus! {

/// A request to change the active environment, raised by the toolbar.
pub enum ApplicationEnvironmentSwitch {
    EnterSketcher,
    ExitSketcher(Option<ModelEntity>),
}

/// The modeling mode: it owns the camera and routes raw input to it.
#[derive(Debug)]
pub struct Modeler {
    pub camera: CameraState,
}

impl Modeler {
    pub fn new(camera: CameraState) -> (r: Modeler)
        ensures
            r.camera == camera,
    {
        Modeler { camera }
    }

    /// Raw input in modeling mode drives the camera.
    pub fn handle_window_event(&mut self, event: &InputEvent)
        requires
            old(self).camera.wf(),
        ensures
            final(self).camera.wf(),
            final(self).camera@ == spec_process_input(old(self).camera@, *event),
    {
        self.camera.process_input(event);
    }
}

/// Where the sketching pointer stands after one event: motion records
/// the position, saturated into the scalar range; nothing else moves it.
pub open spec fn spec_sketch_mouse_after(m: Point2d, e: InputEvent) -> Point2d {
    match e {
        InputEvent::CursorMoved { x, y } => Point2d {
            x: spec_clip(x as int) as i64,
            y: spec_clip(y as int) as i64,
        },
        _ => m,
    }
}

/// What the sketching chain holds after one event: releasing the
/// primary button appends the recorded pointer position unless the
/// chain already holds exactly that point (a duplicate is dropped);
/// nothing else changes it.
pub open spec fn spec_sketch_points_after(
    pts: Seq<Point2d>,
    m: Point2d,
    e: InputEvent,
) -> Seq<Point2d> {
    match e {
        InputEvent::MouseInput { button, pressed } => if button is Left && !pressed {
            if pts.contains(m) {
                pts
            } else {
                pts.push(m)
            }
        } else {
            pts
        },
        _ => pts,
    }
}

/// The sketching mode: it owns the camera, tracks the pointer, and
/// collects a chain of distinct 2D points released onto the canvas.
#[derive(Debug)]
pub struct Sketcher {
    pub camera: CameraState,
    mouse_pos: Point2d,
    points: Vec<Point2d>,
}

impl Sketcher {
    pub closed spec fn cam(&self) -> CameraState {
        self.camera
    }

    pub closed spec fn mouse_view(&self) -> Point2d {
        self.mouse_pos
    }

    pub closed spec fn points_view(&self) -> Seq<Point2d> {
        self.points@
    }

    /// A well-formed camera, and every recorded coordinate in range, so
    /// the finished sketch is always a well-formed entity.
    pub open spec fn wf(&self) -> bool {
        &&& self.cam().wf()
        &&& point2_in_range(self.mouse_view())
        &&& forall|i: int|
            0 <= i < self.points_view().len() ==> point2_in_range(#[trigger] self.points_view()[i])
    }

    /// A fresh sketching mode around the given camera.
    pub fn new(camera: CameraState) -> (r: Sketcher)
        requires
            camera.wf(),
        ensures
            r.wf(),
            r.cam() == camera,
            r.mouse_view() == (Point2d { x: 0, y: 0 }),
            r.points_view() == Seq::<Point2d>::empty(),
    {
        Sketcher { camera, mouse_pos: Point2d { x: 0, y: 0 }, points: Vec::new() }
    }

    /// One integration step of the owned camera; the sketching state
    /// itself does not move.
    pub fn update(&mut self, dist: i64)
        requires
            old(self).wf(),
            0 <= dist <= crate::fx::FX_LIMIT,
        ensures
            final(self).wf(),
            final(self).cam()@ == spec_update(old(self).cam()@, dist as int),
            final(self).mouse_view() == old(self).mouse_view(),
            final(self).points_view() == old(self).points_view(),
    {
        self.camera.update(dist);
        proof {
            assert(self.cam().wf());
            assert(point2_in_range(self.mouse_view()));
            assert(self.points_view() == old(self).points_view());
            assert forall|i: int| 0 <= i < self.points_view().len() implies point2_in_range(
                #[trigger] self.points_view()[i],
            ) by {
                assert(self.points_view()[i] == old(self).points_view()[i]);
            }
        }
    }

    /// The collected chain as a sketch entity, for the switch that
    /// leaves sketching mode.
    pub fn finalize(&self) -> (r: ModelEntity)
        ensures
            r matches ModelEntity::Sketch(s) && s.points_view() == self.points_view(),
            self.wf() ==> spec_entity_wf(r),
    {
        let sk = Sketch::with_points(self.points.clone());
        proof {
            if self.wf() {
                assert forall|i: int| 0 <= i < sk.points_view().len() implies point2_in_range(
                    #[trigger] sk.points_view()[i],
                ) by {
                    assert(sk.points_view()[i] == self.points_view()[i]);
                }
            }
        }
        ModelEntity::Sketch(sk)
    }

    /// Route one raw event into the sketching state: pointer motion
    /// records the (saturated) position, releasing the primary button
    /// appends it to the chain, everything else is ignored.
    pub fn handle_window_event(&mut self, event: &InputEvent)
        requires
            old(self).wf(),
        ensures
            final(self).wf(),
            final(self).cam() == old(self).cam(),
            final(self).mouse_view() == spec_sketch_mouse_after(old(self).mouse_view(), *event),
            final(self).points_view() == spec_sketch_points_after(
                old(self).points_view(),
                old(self).mouse_view(),
                *event,
            ),
    {
        match *event {
            InputEvent::CursorMoved { x, y } => {
                self.mouse_pos = Point2d { x: fx_clip(x as i128), y: fx_clip(y as i128) };
            },
            InputEvent::MouseInput { button, pressed } => {
                if matches!(button, crate::camera::MouseButton::Left) && !pressed {
                    if !self.contains_point(self.mouse_pos) {
                        self.points.push(self.mouse_pos);
                    }
                }
            },
            _ => {},
        }
    }

    fn contains_point(&self, p: Point2d) -> (r: bool)
        ensures
            r == self.points_view().contains(p),
    {
        let mut i: usize = 0;
        while i < self.points.len()
            invariant
                0 <= i <= self.points_view().len(),
                forall|j: int| 0 <= j < i ==> self.points_view()[j] != p,
            decreases self.points_view().len() - i,
        {
            if self.points[i].x == p.x && self.points[i].y == p.y {
                proof {
                    assert(self.points_view()[i as int] == p);
                }
                return true;
            }
            i = i + 1;
        }
        false
    }
}

/// Which mode is active, owning the camera.
#[derive(Debug)]
pub enum ApplicationEnvironmentType {
    Modeling(Modeler),
    Sketching(Sketcher),
}

/// The top-level environment: the active mode and, through it, the one
/// canonical camera.
#[derive(Debug)]
pub struct ApplicationEnvironment {
    env: ApplicationEnvironmentType,
}

impl ApplicationEnvironment {
    /// The camera of whichever mode is active.
    pub closed spec fn camera_view(&self) -> CameraState {
        match self.env {
            ApplicationEnvironmentType::Modeling(ref m) => m.camera,
            ApplicationEnvironmentType::Sketching(ref s) => s.camera,
        }
    }

    pub closed spec fn is_sketching(&self) -> bool {
        self.env is Sketching
    }

    /// The collected sketch chain; empty while modeling.
    pub closed spec fn sketch_points_view(&self) -> Seq<Point2d> {
        match self.env {
            ApplicationEnvironmentType::Modeling(_) => Seq::empty(),
            ApplicationEnvironmentType::Sketching(ref s) => s.points_view(),
        }
    }

    /// The recorded sketching pointer; the origin while modeling.
    pub closed spec fn sketch_mouse_view(&self) -> Point2d {
        match self.env {
            ApplicationEnvironmentType::Modeling(_) => Point2d { x: 0, y: 0 },
            ApplicationEnvironmentType::Sketching(ref s) => s.mouse_view(),
        }
    }

    pub closed spec fn wf(&self) -> bool {
        match self.env {
            ApplicationEnvironmentType::Modeling(ref m) => m.camera.wf(),
            ApplicationEnvironmentType::Sketching(ref s) => s.wf(),
        }
    }

    /// Start in modeling mode with the default camera.
    pub fn new() -> (r: ApplicationEnvironment)
        ensures
            r.wf(),
            !r.is_sketching(),
    {
        ApplicationEnvironment {
            env: ApplicationEnvironmentType::Modeling(Modeler::new(CameraState::new())),
        }
    }

    /// The per-frame step: integrate the held camera intents over the
    /// fixed frame distance.
    pub fn update(&mut self)
        requires
            old(self).wf(),
        ensures
            final(self).wf(),
            final(self).camera_view()@ == spec_update(
                old(self).camera_view()@,
                UPDATE_DISTANCE as int,
            ),
            final(self).is_sketching() == old(self).is_sketching(),
            final(self).sketch_points_view() == old(self).sketch_points_view(),
            final(self).sketch_mouse_view() == old(self).sketch_mouse_view(),
    {
        match &mut self.env {
            ApplicationEnvironmentType::Modeling(m) => m.camera.update(UPDATE_DISTANCE),
            ApplicationEnvironmentType::Sketching(s) => s.update(UPDATE_DISTANCE),
        }
    }

    /// Route raw input to the active mode: the camera in modeling mode,
    /// the pointer and point chain in sketching mode.
    pub fn process_input(&mut self, event: &InputEvent)
        requires
            old(self).wf(),
        ensures
            final(self).wf(),
            final(self).is_sketching() == old(self).is_sketching(),
            !old(self).is_sketching() ==> {
                &&& final(self).camera_view()@ == spec_process_input(
                    old(self).camera_view()@,
                    *event,
                )
                &&& final(self).sketch_points_view() == old(self).sketch_points_view()
            },
            old(self).is_sketching() ==> {
                &&& final(self).camera_view() == old(self).camera_view()
                &&& final(self).sketch_mouse_view() == spec_sketch_mouse_after(
                    old(self).sketch_mouse_view(),
                    *event,
                )
                &&& final(self).sketch_points_view() == spec_sketch_points_after(
                    old(self).sketch_points_view(),
                    old(self).sketch_mouse_view(),
                    *event,
                )
            },
    {
        match &mut self.env {
            ApplicationEnvironmentType::Modeling(m) => m.handle_window_event(event),
            ApplicationEnvironmentType::Sketching(s) => s.handle_window_event(event),
        }
    }

    /// Apply a mode switch: entering the sketcher resets the camera's
    /// rotation, keeps the rest of its state, and hands it to a fresh
    /// sketching mode; leaving hands the same camera back to modeling
    /// and passes any finished sketch entity out to the caller.
    pub fn apply_switch(&mut self, switch: ApplicationEnvironmentSwitch) -> (r: Option<
        ModelEntity,
    >)
        requires
            old(self).wf(),
        ensures
            final(self).wf(),
            match switch {
                ApplicationEnvironmentSwitch::EnterSketcher => {
                    &&& r is None
                    &&& final(self).is_sketching()
                    &&& final(self).camera_view()@ == (CamV {
                        rotation: (0, 0, 0),
                        ..old(self).camera_view()@
                    })
                    &&& final(self).sketch_points_view() == Seq::<Point2d>::empty()
                },
                ApplicationEnvironmentSwitch::ExitSketcher(e) => {
                    &&& r == e
                    &&& !final(self).is_sketching()
                    &&& final(self).camera_view() == old(self).camera_view()
                },
            },
    {
        match switch {
            ApplicationEnvironmentSwitch::EnterSketcher => {
                let camera = self.take_camera();
                let mut sk = Sketcher::new(camera);
                sk.camera.set_rotation((0, 0, 0));
                self.env = ApplicationEnvironmentType::Sketching(sk);
                Option::None
            },
            ApplicationEnvironmentSwitch::ExitSketcher(entity) => {
                let camera = self.take_camera();
                self.env = ApplicationEnvironmentType::Modeling(Modeler::new(camera));
                entity
            },
        }
    }

    /// The camera of whichever mode is active, for reading matrices.
    pub fn camera(&self) -> (r: &CameraState)
        ensures
            *r == self.camera_view(),
    {
        match &self.env {
            ApplicationEnvironmentType::Modeling(m) => &m.camera,
            ApplicationEnvironmentType::Sketching(s) => &s.camera,
        }
    }

    /// The collected sketch as an entity, when sketching is active: it
    /// holds exactly the collected chain, and is well-formed.
    pub fn finish_sketch(&self) -> (r: Option<ModelEntity>)
        requires
            self.wf(),
        ensures
            r is Some <==> self.is_sketching(),
            r matches Some(e) ==> {
                &&& e matches ModelEntity::Sketch(s) && s.points_view()
                    == self.sketch_points_view()
                &&& spec_entity_wf(e)
            },
    {
        match &self.env {
            ApplicationEnvironmentType::Modeling(_) => Option::None,
            ApplicationEnvironmentType::Sketching(s) => Option::Some(s.finalize()),
        }
    }

    /// A copy of the camera of whichever mode holds it; the mode is
    /// rebuilt around it by the caller right after.
    fn take_camera(&mut self) -> (r: CameraState)
        requires
            old(self).wf(),
        ensures
            *final(self) == *old(self),
            r == old(self).camera_view(),
            r.wf(),
    {
        match &self.env {
            ApplicationEnvironmentType::Modeling(m) => m.camera,
            ApplicationEnvironmentType::Sketching(s) => s.camera,
        }
    }
}

} // verus!
