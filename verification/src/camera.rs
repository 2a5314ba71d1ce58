//! The camera and its input controller.
//!
//! The controller is a pure input-state accumulator: four directional
//! flags, set and cleared by key events, and a movement speed. Once per
//! frame `update_camera` consumes the flags and moves the camera's eye
//! — a discrete per-tick step, not physically accurate movement. The
//! arithmetic goes through the scalar's own operations, so the update
//! is proved for any scalar and the shell runs it at its float type;
//! only the projection matrix itself stays with the shell.

use vstd::prelude::*;
use crate::events::{Key, WindowEvent};
use crate::geometry::{Point3, Scalar, Vector3};

verus! {

/// The camera's state: where it stands, what it looks at, which way is
/// up, and the projection parameters. The scalars are opaque here; the
/// shell holds them as floats, derives the view-projection matrix from
/// them each frame, and keeps the invariants the projection needs — a
/// positive near plane in front of the far plane, and the aspect ratio
/// recomputed as width over height on every resize.
pub struct Camera<S> {
    pub eye: Point3<S>,
    pub target: Point3<S>,
    pub up: Vector3<S>,
    pub aspect: S,
    pub fovy: S,
    pub znear: S,
    pub zfar: S,
}

/// Directional input state for the camera, consumed once per frame.
#[derive(Clone, Copy, PartialEq, Eq, Debug)]
pub struct CameraController<S> {
    pub speed: S,
    pub left: bool,
    pub right: bool,
    pub forward: bool,
    pub backward: bool,
}

impl<S: Copy> CameraController<S> {
    /// A controller with the given speed and no direction pressed.
    pub fn new(speed: S) -> (controller: Self)
        ensures
            controller.speed == speed,
            !controller.left,
            !controller.right,
            !controller.forward,
            !controller.backward,
    {
        CameraController { speed, left: false, right: false, forward: false, backward: false }
    }

    /// Feed one window event to the controller. Every keyboard event is
    /// consumed, whatever its key: a left, right, up or down arrow — or
    /// its letter twin — sets or clears its flag to the key's pressed
    /// state, any other key changes nothing. Non-keyboard events are
    /// left for the event loop and change nothing.
    pub fn handle_event<P>(&mut self, event: &WindowEvent<P>) -> (handled: bool)
        ensures
            handled == (*event is KeyboardInput),
            match *event {
                WindowEvent::KeyboardInput { key, pressed } => *final(self) == (CameraController {
                    speed: old(self).speed,
                    left: if key == Key::ArrowLeft || key == Key::KeyA {
                        pressed
                    } else {
                        old(self).left
                    },
                    right: if key == Key::ArrowRight || key == Key::KeyD {
                        pressed
                    } else {
                        old(self).right
                    },
                    backward: if key == Key::ArrowDown || key == Key::KeyS {
                        pressed
                    } else {
                        old(self).backward
                    },
                    forward: if key == Key::ArrowUp || key == Key::KeyW {
                        pressed
                    } else {
                        old(self).forward
                    },
                }),
                _ => *final(self) == *old(self),
            },
    {
        match event {
            WindowEvent::KeyboardInput { key, pressed } => {
                let is_pressed = *pressed;
                match key {
                    Key::ArrowLeft | Key::KeyA => self.left = is_pressed,
                    Key::ArrowRight | Key::KeyD => self.right = is_pressed,
                    Key::ArrowDown | Key::KeyS => self.backward = is_pressed,
                    Key::ArrowUp | Key::KeyW => self.forward = is_pressed,
                    _ => {},
                }
                true
            },
            _ => false,
        }
    }
}

impl<S: Scalar> CameraController<S> {
    /// Where the eye stands after one update: forward and backward move
    /// it along the normalized view direction by the speed; the strafes
    /// then re-aim it around the target, scaling the blended direction
    /// back to the eye-target distance they found, so the framing is
    /// kept rather than drifting. Both strafes read the same view
    /// vector, taken after the forward and backward moves.
    pub open spec fn spec_eye_after(self, camera: Camera<S>) -> Point3<S> {
        let forward_norm = camera.target.spec_minus_point(camera.eye).spec_normalized();
        let step = forward_norm.spec_scaled_by(self.speed);
        let eye_a = if self.forward {
            camera.eye.spec_plus_vector(step)
        } else {
            camera.eye
        };
        let eye_b = if self.backward {
            eye_a.spec_minus_vector(step)
        } else {
            eye_a
        };
        let right = forward_norm.spec_cross(camera.up);
        let side_step = right.spec_scaled_by(self.speed);
        let forward = camera.target.spec_minus_point(eye_b);
        let distance = forward.spec_magnitude();
        let eye_c = if self.right {
            camera.target.spec_minus_vector(
                forward.spec_plus(side_step).spec_normalized().spec_scaled_by(distance),
            )
        } else {
            eye_b
        };
        if self.left {
            camera.target.spec_minus_vector(
                forward.spec_minus(side_step).spec_normalized().spec_scaled_by(distance),
            )
        } else {
            eye_c
        }
    }

    /// Consume the flags for one frame and move the camera's eye; every
    /// other field of the camera is untouched. With only `forward` set,
    /// the eye moves by exactly the speed along the normalized vector
    /// from eye to target; with no flag set it does not move at all.
    pub fn update_camera(&self, camera: &mut Camera<S>)
        ensures
            final(camera).eye == self.spec_eye_after(*old(camera)),
            final(camera).target == old(camera).target,
            final(camera).up == old(camera).up,
            final(camera).aspect == old(camera).aspect,
            final(camera).fovy == old(camera).fovy,
            final(camera).znear == old(camera).znear,
            final(camera).zfar == old(camera).zfar,
            (self.forward && !self.backward && !self.left && !self.right) ==> final(camera).eye
                == old(camera).eye.spec_plus_vector(
                old(camera).target.spec_minus_point(old(camera).eye).spec_normalized()
                    .spec_scaled_by(self.speed),
            ),
            (!self.forward && !self.backward && !self.left && !self.right) ==> final(camera).eye
                == old(camera).eye,
    {
        let forward = camera.target.minus_point(camera.eye);
        let forward_norm = forward.normalized();

        if self.forward {
            camera.eye = camera.eye.plus_vector(forward_norm.scaled_by(self.speed));
        }
        if self.backward {
            camera.eye = camera.eye.minus_vector(forward_norm.scaled_by(self.speed));
        }

        let right = forward_norm.cross(camera.up);

        let forward = camera.target.minus_point(camera.eye);
        let forward_mag = forward.magnitude();

        if self.right {
            camera.eye = camera.target.minus_vector(
                forward.plus(right.scaled_by(self.speed)).normalized().scaled_by(forward_mag),
            );
        }
        if self.left {
            camera.eye = camera.target.minus_vector(
                forward.minus(right.scaled_by(self.speed)).normalized().scaled_by(forward_mag),
            );
        }
    }
}

} // verus!
