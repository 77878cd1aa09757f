//! The pointer controller of the point-sketching shell: it tracks the
//! pointer in normalized device coordinates and decides which clicks
//! become points.  Delivering a decided point to the renderer is the
//! shell's work; the decision itself is made here.

use vstd::prelude::*;
use crate::camera::{InputEvent, MouseButton};
use crate::fx::{fx_add, fx_div, fx_in_range, fx_clip, spec_clip, spec_fx_add, spec_fx_div, FX_ONE};
use crate::point::Point2d;

verus! {

/// Which buttons are currently held.
#[derive(Clone, Copy, Debug, PartialEq, Eq, Structural)]
pub struct Buttons {
    pub left: bool,
    pub middle: bool,
    pub right: bool,
}

impl Buttons {
    /// All buttons released.
    pub fn new() -> (r: Buttons)
        ensures
            r == (Buttons { left: false, middle: false, right: false }),
    {
        Buttons { left: false, middle: false, right: false }
    }
}

/// A pixel coordinate scaled into `[-1, 1]` across the viewport, with
/// `y` growing upward; a zero-sized viewport contributes zero.
pub open spec fn spec_ndc_x(x: int, width: int) -> int {
    if width == 0 {
        0
    } else {
        spec_fx_add(-(FX_ONE as int), spec_fx_div(spec_fx_add(x, x), width))
    }
}

pub open spec fn spec_ndc_y(y: int, height: int) -> int {
    if height == 0 {
        0
    } else {
        spec_fx_add(FX_ONE as int, -spec_fx_div(spec_fx_add(y, y), height))
    }
}

#[derive(Clone, Copy, Debug)]
pub struct MouseController {
    position: Point2d,
    buttons: Buttons,
}

impl MouseController {
    pub closed spec fn position_view(&self) -> Point2d {
        self.position
    }

    pub closed spec fn buttons_view(&self) -> Buttons {
        self.buttons
    }

    pub open spec fn wf(&self) -> bool {
        fx_in_range(self.position_view().x) && fx_in_range(self.position_view().y)
    }

    /// A controller at the origin with no buttons held.
    pub fn new() -> (r: MouseController)
        ensures
            r.wf(),
            r.position_view() == (Point2d { x: 0, y: 0 }),
            r.buttons_view() == (Buttons { left: false, middle: false, right: false }),
    {
        MouseController { position: Point2d { x: 0, y: 0 }, buttons: Buttons::new() }
    }

    /// Record the pointer in normalized device coordinates: `x` maps
    /// pixel `0..width` onto `[-1, 1]`, `y` maps top-down pixels onto
    /// the upward `[1, -1]`.
    pub fn update_position(&mut self, pos: (i64, i64), window_size: (i64, i64))
        ensures
            final(self).wf(),
            final(self).buttons_view() == old(self).buttons_view(),
            final(self).position_view().x as int == spec_ndc_x(
                spec_clip(pos.0 as int),
                spec_clip(window_size.0 as int),
            ),
            final(self).position_view().y as int == spec_ndc_y(
                spec_clip(pos.1 as int),
                spec_clip(window_size.1 as int),
            ),
    {
        let x: i64 = fx_clip(pos.0 as i128);
        let y: i64 = fx_clip(pos.1 as i128);
        let w: i64 = fx_clip(window_size.0 as i128);
        let h: i64 = fx_clip(window_size.1 as i128);
        let nx: i64 = if w == 0 {
            0
        } else {
            fx_add(-FX_ONE, fx_div(fx_add(x, x), w))
        };
        let ny: i64 = if h == 0 {
            0
        } else {
            fx_add(FX_ONE, -fx_div(fx_add(y, y), h))
        };
        self.position = Point2d { x: nx, y: ny };
    }

    /// The current normalized position.
    pub fn position(&self) -> (r: Point2d)
        ensures
            r == self.position_view(),
    {
        self.position
    }

    /// Decide what one raw event means: pointer motion updates the
    /// normalized position; releasing the primary button yields the
    /// position as a new point for the renderer; everything else is
    /// ignored.
    pub fn handle_event(&mut self, event: &InputEvent, window_size: (i64, i64)) -> (r: Option<
        Point2d,
    >)
        requires
            old(self).wf(),
        ensures
            final(self).wf(),
            match *event {
                InputEvent::CursorMoved { x, y } => {
                    &&& r is None
                    &&& final(self).position_view().x as int == spec_ndc_x(
                        spec_clip(x as int),
                        spec_clip(window_size.0 as int),
                    )
                    &&& final(self).position_view().y as int == spec_ndc_y(
                        spec_clip(y as int),
                        spec_clip(window_size.1 as int),
                    )
                },
                InputEvent::MouseInput { button, pressed } => {
                    &&& final(self).position_view() == old(self).position_view()
                    &&& if button is Left && !pressed {
                        r == Option::Some(old(self).position_view())
                    } else {
                        r is None
                    }
                },
                _ => {
                    &&& r is None
                    &&& final(self).position_view() == old(self).position_view()
                },
            },
    {
        match *event {
            InputEvent::CursorMoved { x, y } => {
                self.update_position((x, y), window_size);
                Option::None
            },
            InputEvent::MouseInput { button, pressed } => {
                match button {
                    MouseButton::Left => {
                        self.buttons.left = pressed;
                        if !pressed {
                            Option::Some(self.position)
                        } else {
                            Option::None
                        }
                    },
                    MouseButton::Middle => {
                        self.buttons.middle = pressed;
                        Option::None
                    },
                    MouseButton::Right => {
                        self.buttons.right = pressed;
                        Option::None
                    },
                    MouseButton::Other => Option::None,
                }
            },
            _ => Option::None,
        }
    }
}

} // verus!
