//! The camera: a view offset that follows a target a part of the way each frame.

use vstd::prelude::*;
use crate::entities::{X_MAX, X_MIN, Y_MAX, Y_MIN};
use crate::subpixel::{clamp, clamp_spec, ease, ease_spec};

verus! {

/// Hundredths of the remaining way that the camera covers each frame.
pub const CAMERA_SLEW_PERCENT: i64 = 20;

/// The top left corner of the view, and where it is heading, in position units.
#[derive(Clone, Copy, Debug, PartialEq, Eq, Structural)]
pub struct Camera {
    pub current_viewing_x_offset: i64,
    pub current_viewing_y_offset: i64,
    pub current_viewing_x_target: i64,
    pub current_viewing_y_target: i64,
}

impl Camera {
    /// The view and its target lie in the world.
    pub open spec fn wf(self) -> bool {
        &&& X_MIN <= self.current_viewing_x_offset <= X_MAX
        &&& Y_MIN <= self.current_viewing_y_offset <= Y_MAX
        &&& X_MIN <= self.current_viewing_x_target <= X_MAX
        &&& Y_MIN <= self.current_viewing_y_target <= Y_MAX
    }

    /// The camera with its target set so that `(x, y)` is `(half_width,
    /// half_height)` from the corner of the view, as far as the world allows.
    pub open spec fn aimed_at(self, x: i64, y: i64, half_width: i64, half_height: i64) -> Camera {
        Camera {
            current_viewing_x_target: clamp_spec(x - half_width, X_MIN as int, X_MAX as int) as i64,
            current_viewing_y_target: clamp_spec(
                y - half_height,
                Y_MIN as int,
                Y_MAX as int,
            ) as i64,
            ..self
        }
    }

    /// The camera after one frame of following its target.
    pub open spec fn slewed(self) -> Camera {
        Camera {
            current_viewing_x_offset: ease_spec(
                self.current_viewing_x_offset as int,
                self.current_viewing_x_target as int,
                CAMERA_SLEW_PERCENT as int,
            ) as i64,
            current_viewing_y_offset: ease_spec(
                self.current_viewing_y_offset as int,
                self.current_viewing_y_target as int,
                CAMERA_SLEW_PERCENT as int,
            ) as i64,
            ..self
        }
    }

    /// A camera at rest at the corner of the world.
    pub fn new() -> (camera: Camera)
        ensures
            camera.wf(),
            camera == (Camera {
                current_viewing_x_offset: 0,
                current_viewing_y_offset: 0,
                current_viewing_x_target: 0,
                current_viewing_y_target: 0,
            }),
    {
        Camera {
            current_viewing_x_offset: 0,
            current_viewing_y_offset: 0,
            current_viewing_x_target: 0,
            current_viewing_y_target: 0,
        }
    }

    /// Points the camera at `(x, y)`, which lies in the world.
    pub fn aim_at(&mut self, x: i64, y: i64, half_width: i64, half_height: i64)
        requires
            old(self).wf(),
            X_MIN <= x <= X_MAX,
            Y_MIN <= y <= Y_MAX,
            0 <= half_width <= 0x100_0000_0000,
            0 <= half_height <= 0x100_0000_0000,
        ensures
            *final(self) == old(self).aimed_at(x, y, half_width, half_height),
            final(self).wf(),
    {
        self.current_viewing_x_target = clamp(x - half_width, X_MIN, X_MAX);
        self.current_viewing_y_target = clamp(y - half_height, Y_MIN, Y_MAX);
    }

    /// Moves the view a part of the way to its target.
    pub fn slew(&mut self)
        requires
            old(self).wf(),
        ensures
            *final(self) == old(self).slewed(),
            final(self).wf(),
    {
        self.current_viewing_x_offset = ease(
            self.current_viewing_x_offset,
            self.current_viewing_x_target,
            CAMERA_SLEW_PERCENT,
        );
        self.current_viewing_y_offset = ease(
            self.current_viewing_y_offset,
            self.current_viewing_y_target,
            CAMERA_SLEW_PERCENT,
        );
    }
}

} // verus!
