//! The camera: a position, a facing direction and an up hint, with the view
//! matrix they determine.

use vstd::prelude::*;

use crate::matrix4::Matrix4;
use crate::scalar::F_ONE;
use crate::scalar::F_ZERO;
use crate::transform::checked_look_at;
use crate::transform::look_at_defined;
use crate::transform::look_at_matrix;
use crate::vector3::Vector3;
use crate::vector4::Vector4;

verus! {

/// The bit pattern of 15.0: the camera's starting distance from the scene.
pub const F_FIFTEEN: u32 = 0x4170_0000;

/// The starting camera position, fifteen units along the positive z axis.
pub open spec fn initial_camera_pos() -> Vector3 {
    Vector3 { x: F_ZERO, y: F_ZERO, z: F_FIFTEEN }
}

/// The starting look target: the origin.
pub open spec fn initial_camera_front() -> Vector3 {
    Vector3 { x: F_ZERO, y: F_ZERO, z: F_ZERO }
}

/// The starting up hint: the positive y axis.
pub open spec fn initial_camera_up() -> Vector3 {
    Vector3 { x: F_ZERO, y: F_ONE, z: F_ZERO }
}

/// A viewpoint: where the camera stands, what it looks toward, which way is
/// up, and the view matrix computed from the three.
pub struct Camera {
    pub view: Matrix4,
    pub camera_pos: Vector3,
    pub camera_front: Vector3,
    pub camera_up: Vector3,
}

impl Camera {
    /// The starting viewpoint: the camera fifteen units up the z axis looking
    /// at the origin with y up, and the view matrix of that pose. Were that
    /// fixed pose ever degenerate for `look_at` (it is not in fact), the view
    /// would fall back to the all-zero matrix rather than halt.
    pub fn new() -> (r: Self)
        ensures
            r.camera_pos == initial_camera_pos(),
            r.camera_front == initial_camera_front(),
            r.camera_up == initial_camera_up(),
            r.view == if look_at_defined(
                initial_camera_pos(),
                initial_camera_front(),
                initial_camera_up(),
            ) {
                look_at_matrix(initial_camera_pos(), initial_camera_front(), initial_camera_up())
            } else {
                Matrix4 {
                    r1: Vector4 { x: F_ZERO, y: F_ZERO, z: F_ZERO, w: F_ZERO },
                    r2: Vector4 { x: F_ZERO, y: F_ZERO, z: F_ZERO, w: F_ZERO },
                    r3: Vector4 { x: F_ZERO, y: F_ZERO, z: F_ZERO, w: F_ZERO },
                    r4: Vector4 { x: F_ZERO, y: F_ZERO, z: F_ZERO, w: F_ZERO },
                }
            },
    {
        let camera_pos = Vector3::new(F_ZERO, F_ZERO, F_FIFTEEN);
        let camera_front = Vector3::new(F_ZERO, F_ZERO, F_ZERO);
        let camera_up = Vector3::new(F_ZERO, F_ONE, F_ZERO);
        let view = match checked_look_at(&camera_pos, &camera_front, &camera_up) {
            Some(m) => m,
            None => Matrix4::new_empty(),
        };
        Self { view, camera_pos, camera_front, camera_up }
    }

    /// The current view matrix.
    pub fn view(&self) -> (r: &Matrix4)
        ensures
            *r == self.view,
    {
        &self.view
    }

    /// Moves the camera to a new position and recomputes the view matrix for
    /// it, keeping the look target and the up hint; the caller (the input
    /// layer) decides where the position goes. A pose degenerate for
    /// `look_at` leaves the view matrix unchanged instead of halting.
    pub fn move_to(&mut self, camera_pos: Vector3)
        ensures
            final(self).camera_pos == camera_pos,
            final(self).camera_front == old(self).camera_front,
            final(self).camera_up == old(self).camera_up,
            final(self).view == if look_at_defined(
                camera_pos,
                old(self).camera_front,
                old(self).camera_up,
            ) {
                look_at_matrix(camera_pos, old(self).camera_front, old(self).camera_up)
            } else {
                old(self).view
            },
    {
        self.camera_pos = camera_pos;
        match checked_look_at(&self.camera_pos, &self.camera_front, &self.camera_up) {
            Some(m) => {
                self.view = m;
            },
            None => {},
        }
    }
}

} // verus!
