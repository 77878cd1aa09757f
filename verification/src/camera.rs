//! The navigation camera: a state machine over discrete movement and
//! rotation intents, integrated per frame into a position and a rotation,
//! plus the derivation of the view and projection matrices.
//!
//! All scalars are fixed-point (see [`crate::fx`]): one unit is
//! [`FX_ONE`].  After every integration step the rotation is wrapped into
//! `[0, 2*pi)` and the position is clamped into the unit box `[-1, 1]`
//! on each axis.

use vstd::prelude::*;
use crate::fx::{
    abs_int, fx_abs, fx_add, fx_clamp_unit, fx_clip, fx_cos, fx_div, fx_in_range, fx_mul, fx_sign,
    fx_sin, fx_sub, fx_wrap_angle, spec_clamp_unit, spec_clip, spec_fx_add, spec_fx_cos,
    spec_fx_div, spec_fx_mul, spec_fx_sin, spec_fx_sub, spec_sign, FX_ONE, FX_TWO_PI,
};
use crate::vec3::{
    cross3, dot3, normalize3, scale3, spec_cross3, spec_normalize3, vec3_in_range, view3,
};

verus! {

/// Distance applied for one frame of held-key movement: `0.01` units.
pub const UPDATE_DISTANCE: i64 = 10_000;

/// Keys the camera reacts to; anything else arrives as `Other`.
#[derive(Clone, Copy, Debug, PartialEq, Eq, Structural)]
pub enum Key {
    Up,
    Down,
    A,
    D,
    W,
    S,
    Left,
    Right,
    Key1,
    Key2,
    Key3,
    T,
    R,
    Other,
}

#[derive(Clone, Copy, Debug, PartialEq, Eq, Structural)]
pub enum MouseButton {
    Left,
    Middle,
    Right,
    Other,
}

/// The tagged union of raw input the camera consumes: key transitions,
/// pointer motion and buttons, scroll deltas and viewport resizes.
/// Coordinates and deltas are fixed-point scalars.
#[derive(Clone, Copy, Debug, PartialEq, Eq, Structural)]
pub enum InputEvent {
    KeyDown(Key),
    KeyUp(Key),
    CursorMoved { x: i64, y: i64 },
    MouseInput { button: MouseButton, pressed: bool },
    MouseWheel { dx: i64, dy: i64 },
    Resized { width: i64, height: i64 },
}

/// The mathematical image of a camera state: every field as an
/// unbounded integer, so contracts can speak in plain arithmetic.
pub ghost struct CamV {
    pub width: int,
    pub height: int,
    pub position: (int, int, int),
    pub rotation: (int, int, int),
    pub direction: (int, int, int),
    pub moving: (int, int, int),
    pub rotating: (int, int, int),
    pub lmouse_held: bool,
    pub mouse_pos: (int, int),
}

#[derive(Clone, Copy, Debug)]
pub struct CameraState {
    width: i64,
    height: i64,

    pub position: (i64, i64, i64),
    pub rotation: (i64, i64, i64),
    direction: (i64, i64, i64),

    moving: (i8, i8, i8),
    rotating: (i8, i8, i8),

    lmouse_held: bool,
    mouse_pos: (i64, i64),
}

impl View for CameraState {
    type V = CamV;

    closed spec fn view(&self) -> CamV {
        CamV {
            width: self.width as int,
            height: self.height as int,
            position: (self.position.0 as int, self.position.1 as int, self.position.2 as int),
            rotation: (self.rotation.0 as int, self.rotation.1 as int, self.rotation.2 as int),
            direction: (self.direction.0 as int, self.direction.1 as int, self.direction.2 as int),
            moving: (self.moving.0 as int, self.moving.1 as int, self.moving.2 as int),
            rotating: (self.rotating.0 as int, self.rotating.1 as int, self.rotating.2 as int),
            lmouse_held: self.lmouse_held,
            mouse_pos: (self.mouse_pos.0 as int, self.mouse_pos.1 as int),
        }
    }
}

/// An intent axis holds a sign: `-1`, `0` or `1`.
pub open spec fn intent_valid(m: int) -> bool {
    -1 <= m <= 1
}

/// The world up direction, `(0, 1, 0)`.
pub open spec fn spec_up() -> (int, int, int) {
    (0, FX_ONE as int, 0)
}

/// The camera's forward axis: its direction, scaled to unit length.
pub open spec fn spec_forward(d: (int, int, int)) -> (int, int, int) {
    spec_normalize3(d)
}

/// The sideways axis before normalization, `forward x up`.
pub open spec fn spec_side_raw(d: (int, int, int)) -> (int, int, int) {
    spec_cross3(spec_forward(d), spec_up())
}

/// The sideways axis of the view basis.
pub open spec fn spec_side(d: (int, int, int)) -> (int, int, int) {
    spec_normalize3(spec_side_raw(d))
}

/// The corrected up axis of the view basis, `side x forward`.
pub open spec fn spec_up_axis(d: (int, int, int)) -> (int, int, int) {
    spec_cross3(spec_side(d), spec_forward(d))
}

/// One position component moved along one axis component by `dist`,
/// under an intent sign.
pub open spec fn spec_move_comp(p: int, axis_c: int, dist: int, m: int) -> int {
    if m == 0 {
        p
    } else if m > 0 {
        spec_fx_add(p, spec_fx_mul(axis_c, dist))
    } else {
        spec_fx_add(p, -spec_fx_mul(axis_c, dist))
    }
}

/// A whole position moved along an axis vector by `dist` under an intent.
pub open spec fn spec_move3(
    p: (int, int, int),
    axis: (int, int, int),
    dist: int,
    m: int,
) -> (int, int, int) {
    (
        spec_move_comp(p.0, axis.0, dist, m),
        spec_move_comp(p.1, axis.1, dist, m),
        spec_move_comp(p.2, axis.2, dist, m),
    )
}

/// One rotation component advanced by `dist` under an intent sign.
pub open spec fn spec_rotate_comp(r: int, dist: int, m: int) -> int {
    if m == 0 {
        r
    } else if m > 0 {
        spec_fx_add(r, dist)
    } else {
        spec_fx_add(r, -dist)
    }
}

/// The full integration step: move along the side, forward and up axes,
/// advance the rotation, then wrap the rotation and clamp the position.
pub open spec fn spec_update(c: CamV, dist: int) -> CamV {
    let f = spec_forward(c.direction);
    let s = spec_side(c.direction);
    let u = spec_cross3(s, f);
    let p1 = spec_move3(c.position, s, dist, c.moving.0);
    let p2 = spec_move3(p1, f, dist, c.moving.1);
    let p3 = spec_move3(p2, u, dist, c.moving.2);
    let r1 = (
        spec_rotate_comp(c.rotation.0, dist, c.rotating.0),
        spec_rotate_comp(c.rotation.1, dist, c.rotating.1),
        spec_rotate_comp(c.rotation.2, dist, c.rotating.2),
    );
    CamV {
        position: (
            spec_clamp_unit(p3.0),
            spec_clamp_unit(p3.1),
            spec_clamp_unit(p3.2),
        ),
        rotation: (
            r1.0 % (FX_TWO_PI as int),
            r1.1 % (FX_TWO_PI as int),
            r1.2 % (FX_TWO_PI as int),
        ),
        ..c
    }
}

/// The rotation the dedicated reset keys restore: the starting Euler
/// angles for one key, all zeros for the other.
pub open spec fn spec_default_rotation() -> (int, int, int) {
    (500_000, 1_000_000, 0)
}

/// A key transition mapped onto the intent axes: each movement key sets
/// one signed component of `moving` while held, each rotation key one
/// component of `rotating`; two keys reset the rotation itself.
pub open spec fn spec_key_transition(c: CamV, k: Key, pressed: bool) -> CamV {
    let p: int = if pressed { 1 } else { 0 };
    match k {
        Key::Up => CamV { moving: (c.moving.0, c.moving.1, p), ..c },
        Key::Down => CamV { moving: (c.moving.0, c.moving.1, -p), ..c },
        Key::A => CamV { moving: (-p, c.moving.1, c.moving.2), ..c },
        Key::D => CamV { moving: (p, c.moving.1, c.moving.2), ..c },
        Key::W => CamV { moving: (c.moving.0, p, c.moving.2), ..c },
        Key::S => CamV { moving: (c.moving.0, -p, c.moving.2), ..c },
        Key::Left => CamV { rotating: (c.rotating.0, -p, c.rotating.2), ..c },
        Key::Right => CamV { rotating: (c.rotating.0, p, c.rotating.2), ..c },
        Key::Key1 => CamV { rotating: (p, c.rotating.1, c.rotating.2), ..c },
        Key::Key2 => CamV { rotating: (c.rotating.0, p, c.rotating.2), ..c },
        Key::Key3 => CamV { rotating: (c.rotating.0, c.rotating.1, p), ..c },
        Key::T => CamV { rotation: spec_default_rotation(), ..c },
        Key::R => CamV { rotation: (0, 0, 0), ..c },
        Key::Other => c,
    }
}

/// One drag or scroll pulse: an intent axis is set to the delta's sign,
/// one integration step of the delta's magnitude runs, and the axis is
/// cleared again.
pub open spec fn spec_pulse(c: CamV, delta: int, set_axis: spec_fn(CamV, int) -> CamV) -> CamV {
    let c1 = set_axis(c, spec_sign(delta));
    let c2 = spec_update(c1, abs_int(delta));
    set_axis(c2, 0)
}

/// A pointer move while the primary button is held: the delta from the
/// last pointer position, divided by the viewport size, pulses the two
/// rotation-intent axes; a zero-sized viewport contributes no delta.
/// The last pointer position is recorded in every case.
pub open spec fn spec_cursor_moved(c: CamV, x: int, y: int) -> CamV {
    let cx = spec_clip(x);
    let cy = spec_clip(y);
    let moved = if c.lmouse_held {
        let dx = if c.width != 0 {
            spec_fx_div(spec_fx_sub(cx, c.mouse_pos.0), c.width)
        } else {
            0
        };
        let dy = if c.height != 0 {
            spec_fx_div(spec_fx_sub(cy, c.mouse_pos.1), c.height)
        } else {
            0
        };
        let c1 = spec_pulse(
            c,
            dx,
            |s: CamV, v: int| CamV { rotating: (s.rotating.0, v, s.rotating.2), ..s },
        );
        spec_pulse(
            c1,
            dy,
            |s: CamV, v: int| CamV { rotating: (v, s.rotating.1, s.rotating.2), ..s },
        )
    } else {
        c
    };
    CamV { mouse_pos: (cx, cy), ..moved }
}

/// A scroll: the two signed deltas pulse the horizontal and forward
/// movement axes in turn.
pub open spec fn spec_mouse_wheel(c: CamV, dx: int, dy: int) -> CamV {
    let cdx = spec_clip(dx);
    let cdy = spec_clip(dy);
    let c1 = spec_pulse(
        c,
        cdx,
        |s: CamV, v: int| CamV { moving: (v, s.moving.1, s.moving.2), ..s },
    );
    spec_pulse(
        c1,
        cdy,
        |s: CamV, v: int| CamV { moving: (s.moving.0, v, s.moving.2), ..s },
    )
}

/// The full translation of one raw input event into intent and state
/// changes, exactly as `process_input` performs it.
pub open spec fn spec_process_input(c: CamV, e: InputEvent) -> CamV {
    match e {
        InputEvent::KeyDown(k) => spec_key_transition(c, k, true),
        InputEvent::KeyUp(k) => spec_key_transition(c, k, false),
        InputEvent::CursorMoved { x, y } => spec_cursor_moved(c, x as int, y as int),
        InputEvent::MouseInput { button, pressed } => match button {
            MouseButton::Left => CamV { lmouse_held: pressed, ..c },
            _ => c,
        },
        InputEvent::MouseWheel { dx, dy } => spec_mouse_wheel(c, dx as int, dy as int),
        InputEvent::Resized { width, height } => CamV {
            width: spec_clip(width as int),
            height: spec_clip(height as int),
            ..c
        },
    }
}

/// A 4x4 matrix of fixed-point scalars, stored column-major as the
/// renderer expects it.
pub type Mat4 = [[i64; 4]; 4];

/// The mathematical image of a matrix: its sixteen entries as integers,
/// one inner tuple per column.
pub type Mat4V = ((int, int, int, int), (int, int, int, int), (int, int, int, int), (int, int, int, int));

pub open spec fn mat4_view(m: Mat4) -> Mat4V {
    (
        (m[0][0] as int, m[0][1] as int, m[0][2] as int, m[0][3] as int),
        (m[1][0] as int, m[1][1] as int, m[1][2] as int, m[1][3] as int),
        (m[2][0] as int, m[2][1] as int, m[2][2] as int, m[2][3] as int),
        (m[3][0] as int, m[3][1] as int, m[3][2] as int, m[3][3] as int),
    )
}

/// Far clipping distance of the projection, `1024.0`.
pub const Z_FAR: i64 = 1_024_000_000;

/// Near clipping distance of the projection, `0.1`.
pub const Z_NEAR: i64 = 100_000;

/// The symmetric perspective projection for a viewport of the given
/// fixed-point size.  The vertical field of view is fixed at a right
/// angle, whose focal factor is exactly one; a zero width or height
/// yields zero entries where the quotients are undefined.
pub open spec fn spec_perspective(width: int, height: int) -> Mat4V {
    let aspect = if height == 0 { 0 } else { spec_fx_div(width, height) };
    let m00 = if aspect == 0 { 0 } else { spec_fx_div(FX_ONE as int, aspect) };
    let depth_sum = spec_fx_add(Z_FAR as int, Z_NEAR as int);
    let depth_diff = spec_fx_sub(Z_FAR as int, Z_NEAR as int);
    let m22 = spec_fx_div(depth_sum, depth_diff);
    let prod = spec_fx_mul(Z_FAR as int, Z_NEAR as int);
    let m32 = -spec_fx_div(spec_fx_add(prod, prod), depth_diff);
    (
        (m00, 0, 0, 0),
        (0, FX_ONE as int, 0, 0),
        (0, 0, m22, FX_ONE as int),
        (0, 0, m32, 0),
    )
}

/// The view matrix: the orthonormalized camera basis in the first three
/// columns and, in the last column, the position dotted against each of
/// the three basis vectors and negated.
pub open spec fn spec_view_matrix(c: CamV) -> Mat4V {
    let f = spec_forward(c.direction);
    let sn = spec_side(c.direction);
    let u = spec_up_axis(c.direction);
    (
        (sn.0, u.0, f.0, 0),
        (sn.1, u.1, f.1, 0),
        (sn.2, u.2, f.2, 0),
        (
            -crate::vec3::spec_dot3(c.position, sn),
            -crate::vec3::spec_dot3(c.position, u),
            -crate::vec3::spec_dot3(c.position, f),
            FX_ONE as int,
        ),
    )
}

/// Elementary rotation about the x axis by the wrapped first Euler angle.
pub open spec fn spec_x_rotation(c: CamV) -> Mat4V {
    let w = c.rotation.0 % (FX_TWO_PI as int);
    let co = spec_fx_cos(w);
    let si = spec_fx_sin(w);
    (
        (FX_ONE as int, 0, 0, 0),
        (0, co, si, 0),
        (0, -si, co, 0),
        (0, 0, 0, FX_ONE as int),
    )
}

/// Elementary rotation about the y axis by the wrapped second Euler angle.
pub open spec fn spec_y_rotation(c: CamV) -> Mat4V {
    let w = c.rotation.1 % (FX_TWO_PI as int);
    let co = spec_fx_cos(w);
    let si = spec_fx_sin(w);
    (
        (co, 0, -si, 0),
        (0, FX_ONE as int, 0, 0),
        (si, 0, co, 0),
        (0, 0, 0, FX_ONE as int),
    )
}

/// Elementary rotation about the z axis by the wrapped third Euler angle.
pub open spec fn spec_z_rotation(c: CamV) -> Mat4V {
    let w = c.rotation.2 % (FX_TWO_PI as int);
    let co = spec_fx_cos(w);
    let si = spec_fx_sin(w);
    (
        (co, si, 0, 0),
        (-si, co, 0, 0),
        (0, 0, FX_ONE as int, 0),
        (0, 0, 0, FX_ONE as int),
    )
}

impl CameraState {
    /// Structural bounds every camera value keeps: scalars in range and
    /// intent axes holding signs only.
    pub closed spec fn wf(&self) -> bool {
        &&& fx_in_range(self.width)
        &&& fx_in_range(self.height)
        &&& vec3_in_range(self.position)
        &&& vec3_in_range(self.rotation)
        &&& vec3_in_range(self.direction)
        &&& fx_in_range(self.mouse_pos.0)
        &&& fx_in_range(self.mouse_pos.1)
        &&& intent_valid(self.moving.0 as int)
        &&& intent_valid(self.moving.1 as int)
        &&& intent_valid(self.moving.2 as int)
        &&& intent_valid(self.rotating.0 as int)
        &&& intent_valid(self.rotating.1 as int)
        &&& intent_valid(self.rotating.2 as int)
    }

    /// The fixed starting state: a 1024x768 viewport, position
    /// `(0.1, 0.1, 1.0)`, rotation `(0.5, 1.0, 0.0)` and a forward
    /// direction of `(0, 0, -1)`, with no intents held.
    pub fn new() -> (r: CameraState)
        ensures
            r.wf(),
            r@.width == 1024 * FX_ONE as int,
            r@.height == 768 * FX_ONE as int,
            r@.position == (100_000int, 100_000int, 1_000_000int),
            r@.rotation == (500_000int, 1_000_000int, 0int),
            r@.direction == (0int, 0int, -1_000_000int),
            r@.moving == (0int, 0int, 0int),
            r@.rotating == (0int, 0int, 0int),
            !r@.lmouse_held,
            r@.mouse_pos == (0int, 0int),
    {
        CameraState {
            width: 1024 * FX_ONE,
            height: 768 * FX_ONE,

            position: (100_000, 100_000, 1_000_000),
            rotation: (500_000, 1_000_000, 0),
            direction: (0, 0, -1_000_000),

            moving: (0, 0, 0),
            rotating: (0, 0, 0),

            lmouse_held: false,
            mouse_pos: (0, 0),
        }
    }

    /// Wrap each rotation angle into `[0, 2*pi)` and clamp each position
    /// axis into the `[-1, 1]` box.
    fn normalize(&mut self)
        requires
            old(self).wf(),
        ensures
            final(self).wf(),
            final(self)@.rotation == (
                old(self)@.rotation.0 % (FX_TWO_PI as int),
                old(self)@.rotation.1 % (FX_TWO_PI as int),
                old(self)@.rotation.2 % (FX_TWO_PI as int),
            ),
            final(self)@.position == (
                spec_clamp_unit(old(self)@.position.0),
                spec_clamp_unit(old(self)@.position.1),
                spec_clamp_unit(old(self)@.position.2),
            ),
            final(self)@ == (CamV {
                rotation: final(self)@.rotation,
                position: final(self)@.position,
                ..old(self)@
            }),
            0 <= final(self)@.rotation.0 < FX_TWO_PI as int,
            0 <= final(self)@.rotation.1 < FX_TWO_PI as int,
            0 <= final(self)@.rotation.2 < FX_TWO_PI as int,
            -(FX_ONE as int) <= final(self)@.position.0 <= FX_ONE as int,
            -(FX_ONE as int) <= final(self)@.position.1 <= FX_ONE as int,
            -(FX_ONE as int) <= final(self)@.position.2 <= FX_ONE as int,
    {
        self.rotation = (
            fx_wrap_angle(self.rotation.0),
            fx_wrap_angle(self.rotation.1),
            fx_wrap_angle(self.rotation.2),
        );
        self.position = (
            fx_clamp_unit(self.position.0),
            fx_clamp_unit(self.position.1),
            fx_clamp_unit(self.position.2),
        );
    }

    pub fn set_aspect_ratio(&mut self, x: i64, y: i64)
        requires
            old(self).wf(),
        ensures
            final(self).wf(),
            final(self)@ == (CamV {
                width: spec_clip(x as int),
                height: spec_clip(y as int),
                ..old(self)@
            }),
    {
        self.width = fx_clip(x as i128);
        self.height = fx_clip(y as i128);
    }

    pub fn set_position(&mut self, pos: (i64, i64, i64))
        requires
            old(self).wf(),
        ensures
            final(self).wf(),
            final(self)@ == (CamV {
                position: (
                    spec_clip(pos.0 as int),
                    spec_clip(pos.1 as int),
                    spec_clip(pos.2 as int),
                ),
                ..old(self)@
            }),
    {
        self.position = (
            fx_clip(pos.0 as i128),
            fx_clip(pos.1 as i128),
            fx_clip(pos.2 as i128),
        );
    }

    pub fn set_direction(&mut self, dir: (i64, i64, i64))
        requires
            old(self).wf(),
        ensures
            final(self).wf(),
            final(self)@ == (CamV {
                direction: (
                    spec_clip(dir.0 as int),
                    spec_clip(dir.1 as int),
                    spec_clip(dir.2 as int),
                ),
                ..old(self)@
            }),
    {
        self.direction = (
            fx_clip(dir.0 as i128),
            fx_clip(dir.1 as i128),
            fx_clip(dir.2 as i128),
        );
    }

    pub fn set_rotation(&mut self, rot: (i64, i64, i64))
        requires
            old(self).wf(),
        ensures
            final(self).wf(),
            final(self)@ == (CamV {
                rotation: (
                    spec_clip(rot.0 as int),
                    spec_clip(rot.1 as int),
                    spec_clip(rot.2 as int),
                ),
                ..old(self)@
            }),
    {
        self.rotation = (
            fx_clip(rot.0 as i128),
            fx_clip(rot.1 as i128),
            fx_clip(rot.2 as i128),
        );
    }

    /// Width over height; zero when the height is zero, the one value the
    /// fixed-point quotient cannot represent.
    pub open spec fn spec_aspect_ratio(&self) -> int {
        if self@.height == 0 {
            0
        } else {
            spec_fx_div(self@.width, self@.height)
        }
    }

    pub fn get_aspect_ratio(&self) -> (r: i64)
        requires
            self.wf(),
        ensures
            r as int == self.spec_aspect_ratio(),
            fx_in_range(r),
    {
        if self.height == 0 {
            0
        } else {
            fx_div(self.width, self.height)
        }
    }

    /// Integrate the held intents over a step of magnitude `dist`:
    /// move along the camera's side, forward and up axes, advance each
    /// rotation angle, then wrap the rotation into `[0, 2*pi)` and clamp
    /// the position into the unit box.
    pub fn update(&mut self, dist: i64)
        requires
            old(self).wf(),
            0 <= dist <= crate::fx::FX_LIMIT,
        ensures
            final(self).wf(),
            final(self)@ == spec_update(old(self)@, dist as int),
            0 <= final(self)@.rotation.0 < FX_TWO_PI as int,
            0 <= final(self)@.rotation.1 < FX_TWO_PI as int,
            0 <= final(self)@.rotation.2 < FX_TWO_PI as int,
            -(FX_ONE as int) <= final(self)@.position.0 <= FX_ONE as int,
            -(FX_ONE as int) <= final(self)@.position.1 <= FX_ONE as int,
            -(FX_ONE as int) <= final(self)@.position.2 <= FX_ONE as int,
    {
        let f = normalize3(self.direction);
        let s = normalize3(cross3(f, (0, FX_ONE, 0)));
        let u = cross3(s, f);

        self.position = Self::move_axis(self.position, s, dist, self.moving.0);
        self.position = Self::move_axis(self.position, f, dist, self.moving.1);
        self.position = Self::move_axis(self.position, u, dist, self.moving.2);

        self.rotation = (
            Self::rotate_axis(self.rotation.0, dist, self.rotating.0),
            Self::rotate_axis(self.rotation.1, dist, self.rotating.1),
            Self::rotate_axis(self.rotation.2, dist, self.rotating.2),
        );

        self.normalize();
    }

    fn move_axis(p: (i64, i64, i64), axis: (i64, i64, i64), dist: i64, m: i8) -> (r: (i64, i64, i64))
        requires
            vec3_in_range(p),
            vec3_in_range(axis),
            fx_in_range(dist),
            intent_valid(m as int),
        ensures
            view3(r) == spec_move3(view3(p), view3(axis), dist as int, m as int),
            vec3_in_range(r),
    {
        if m == 0 {
            p
        } else {
            let t = scale3(axis, dist);
            if m > 0 {
                (fx_add(p.0, t.0), fx_add(p.1, t.1), fx_add(p.2, t.2))
            } else {
                (fx_add(p.0, -t.0), fx_add(p.1, -t.1), fx_add(p.2, -t.2))
            }
        }
    }

    fn rotate_axis(r0: i64, dist: i64, m: i8) -> (r: i64)
        requires
            fx_in_range(r0),
            fx_in_range(dist),
            intent_valid(m as int),
        ensures
            r as int == spec_rotate_comp(r0 as int, dist as int, m as int),
            fx_in_range(r),
    {
        if m == 0 {
            r0
        } else if m > 0 {
            fx_add(r0, dist)
        } else {
            fx_add(r0, -dist)
        }
    }

    /// Derive the perspective projection from the current viewport size.
    /// A pure function of the aspect inputs, derived anew on every call.
    pub fn get_perspective(&self) -> (r: Mat4)
        requires
            self.wf(),
        ensures
            mat4_view(r) == spec_perspective(self@.width, self@.height),
    {
        let aspect: i64 = self.get_aspect_ratio();
        let m00: i64 = if aspect == 0 { 0 } else { fx_div(FX_ONE, aspect) };
        let depth_sum: i64 = fx_add(Z_FAR, Z_NEAR);
        let depth_diff: i64 = fx_sub(Z_FAR, Z_NEAR);
        let m22: i64 = fx_div(depth_sum, depth_diff);
        let prod: i64 = fx_mul(Z_FAR, Z_NEAR);
        let m32: i64 = -fx_div(fx_add(prod, prod), depth_diff);
        [
            [m00, 0, 0, 0],
            [0, FX_ONE, 0, 0],
            [0, 0, m22, FX_ONE],
            [0, 0, m32, 0],
        ]
    }

    /// Derive the view matrix from the direction and position: a
    /// right-handed basis built from the direction and the world up,
    /// with the projected position in the last column.
    pub fn get_view(&self) -> (r: Mat4)
        requires
            self.wf(),
        ensures
            mat4_view(r) == spec_view_matrix(self@),
    {
        let f = normalize3(self.direction);
        let sn = normalize3(cross3(f, (0, FX_ONE, 0)));
        let u = cross3(sn, f);
        let p0: i64 = -dot3(self.position, sn);
        let p1: i64 = -dot3(self.position, u);
        let p2: i64 = -dot3(self.position, f);
        [
            [sn.0, u.0, f.0, 0],
            [sn.1, u.1, f.1, 0],
            [sn.2, u.2, f.2, 0],
            [p0, p1, p2, FX_ONE],
        ]
    }

    /// The elementary rotation matrix about the x axis.
    pub fn get_x_rotation(&self) -> (r: Mat4)
        requires
            self.wf(),
        ensures
            mat4_view(r) == spec_x_rotation(self@),
    {
        let w: i64 = fx_wrap_angle(self.rotation.0);
        let co: i64 = fx_cos(w);
        let si: i64 = fx_sin(w);
        [
            [FX_ONE, 0, 0, 0],
            [0, co, si, 0],
            [0, -si, co, 0],
            [0, 0, 0, FX_ONE],
        ]
    }

    /// The elementary rotation matrix about the y axis.
    pub fn get_y_rotation(&self) -> (r: Mat4)
        requires
            self.wf(),
        ensures
            mat4_view(r) == spec_y_rotation(self@),
    {
        let w: i64 = fx_wrap_angle(self.rotation.1);
        let co: i64 = fx_cos(w);
        let si: i64 = fx_sin(w);
        [
            [co, 0, -si, 0],
            [0, FX_ONE, 0, 0],
            [si, 0, co, 0],
            [0, 0, 0, FX_ONE],
        ]
    }

    fn key_transition(&mut self, k: Key, pressed: bool)
        requires
            old(self).wf(),
        ensures
            final(self).wf(),
            final(self)@ == spec_key_transition(old(self)@, k, pressed),
    {
        let p: i8 = if pressed { 1 } else { 0 };
        match k {
            Key::Up => self.moving = (self.moving.0, self.moving.1, p),
            Key::Down => self.moving = (self.moving.0, self.moving.1, -p),
            Key::A => self.moving = (-p, self.moving.1, self.moving.2),
            Key::D => self.moving = (p, self.moving.1, self.moving.2),
            Key::W => self.moving = (self.moving.0, p, self.moving.2),
            Key::S => self.moving = (self.moving.0, -p, self.moving.2),
            Key::Left => self.rotating = (self.rotating.0, -p, self.rotating.2),
            Key::Right => self.rotating = (self.rotating.0, p, self.rotating.2),
            Key::Key1 => self.rotating = (p, self.rotating.1, self.rotating.2),
            Key::Key2 => self.rotating = (self.rotating.0, p, self.rotating.2),
            Key::Key3 => self.rotating = (self.rotating.0, self.rotating.1, p),
            Key::T => self.rotation = (500_000, 1_000_000, 0),
            Key::R => self.rotation = (0, 0, 0),
            Key::Other => {},
        }
    }

    /// Translate one raw input event into intent and state changes: key
    /// transitions hold or release intent axes, pointer drags and scroll
    /// deltas pulse an axis through one variable-sized integration step,
    /// and resizes record the new viewport.
    pub fn process_input(&mut self, event: &InputEvent)
        requires
            old(self).wf(),
        ensures
            final(self).wf(),
            final(self)@ == spec_process_input(old(self)@, *event),
    {
        match *event {
            InputEvent::KeyDown(k) => self.key_transition(k, true),
            InputEvent::KeyUp(k) => self.key_transition(k, false),
            InputEvent::CursorMoved { x, y } => {
                let cx: i64 = fx_clip(x as i128);
                let cy: i64 = fx_clip(y as i128);
                if self.lmouse_held {
                    let dx: i64 = if self.width != 0 {
                        fx_div(fx_sub(cx, self.mouse_pos.0), self.width)
                    } else {
                        0
                    };
                    let dy: i64 = if self.height != 0 {
                        fx_div(fx_sub(cy, self.mouse_pos.1), self.height)
                    } else {
                        0
                    };
                    self.rotating = (self.rotating.0, fx_sign(dx), self.rotating.2);
                    self.update(fx_abs(dx));
                    self.rotating = (self.rotating.0, 0, self.rotating.2);
                    self.rotating = (fx_sign(dy), self.rotating.1, self.rotating.2);
                    self.update(fx_abs(dy));
                    self.rotating = (0, self.rotating.1, self.rotating.2);
                }
                self.mouse_pos = (cx, cy);
            },
            InputEvent::MouseInput { button, pressed } => {
                match button {
                    MouseButton::Left => self.lmouse_held = pressed,
                    _ => {},
                }
            },
            InputEvent::MouseWheel { dx, dy } => {
                let cdx: i64 = fx_clip(dx as i128);
                let cdy: i64 = fx_clip(dy as i128);
                self.moving = (fx_sign(cdx), self.moving.1, self.moving.2);
                self.update(fx_abs(cdx));
                self.moving = (0, self.moving.1, self.moving.2);
                self.moving = (self.moving.0, fx_sign(cdy), self.moving.2);
                self.update(fx_abs(cdy));
                self.moving = (self.moving.0, 0, self.moving.2);
            },
            InputEvent::Resized { width, height } => self.set_aspect_ratio(width, height),
        }
    }

    /// The elementary rotation matrix about the z axis.
    pub fn get_z_rotation(&self) -> (r: Mat4)
        requires
            self.wf(),
        ensures
            mat4_view(r) == spec_z_rotation(self@),
    {
        let w: i64 = fx_wrap_angle(self.rotation.2);
        let co: i64 = fx_cos(w);
        let si: i64 = fx_sin(w);
        [
            [co, si, 0, 0],
            [-si, co, 0, 0],
            [0, 0, FX_ONE, 0],
            [0, 0, 0, FX_ONE],
        ]
    }
}

} // verus!
