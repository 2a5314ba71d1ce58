//! The brush overlay's logical state and its uniform mirror.
//!
//! The brush keeps a position and a radius, and beside them the uniform
//! snapshot that is written to the GPU every frame. Every mutation goes
//! through the two update methods, which keep snapshot and state equal;
//! the frame driver uploads the snapshot before the brush draw, every
//! frame, whether or not it changed.
//!
//! The scalar type is a parameter: the renderer instantiates it at its
//! floating-point type outside the verified core, and an update with a
//! non-positive radius is refused by whatever order that type defines.

use vstd::prelude::*;
use crate::geometry::{Point3, Scalar};

verus! {

/// The brush uniform: the snapshot of position and radius that the
/// frame driver writes to the brush's GPU buffer each frame.
#[derive(Clone, Copy, PartialEq, Debug)]
pub struct BrushUniform<S> {
    pub position: Point3<S>,
    pub radius: S,
}

impl<S: Copy> BrushUniform<S> {
    pub fn new(position: Point3<S>, radius: S) -> (uniform: Self)
        ensures
            uniform.position == position,
            uniform.radius == radius,
    {
        BrushUniform { position, radius }
    }

    pub fn update_position(&mut self, new_position: Point3<S>)
        ensures
            final(self).position == new_position,
            final(self).radius == old(self).radius,
    {
        self.position = new_position;
    }

    pub fn update_radius(&mut self, new_radius: S)
        ensures
            final(self).radius == new_radius,
            final(self).position == old(self).position,
    {
        self.radius = new_radius;
    }
}

/// The brush overlay's state: where it is, how wide it is, and the
/// uniform snapshot mirroring both.
pub struct Brush<S> {
    pub position: Point3<S>,
    pub radius: S,
    pub uniform: BrushUniform<S>,
}

impl<S: Scalar> Brush<S> {
    /// The uniform snapshot agrees with the logical state. Established
    /// by the constructor and preserved by both updates.
    pub open spec fn mirrored(self) -> bool {
        self.uniform.position == self.position && self.uniform.radius == self.radius
    }

    pub fn new(position: Point3<S>, radius: S) -> (brush: Self)
        ensures
            brush.position == position,
            brush.radius == radius,
            brush.mirrored(),
    {
        Brush { position, radius, uniform: BrushUniform::new(position, radius) }
    }

    /// Move the brush: an unconditional overwrite of the position, in
    /// the logical state and in the uniform alike.
    pub fn update_position(&mut self, new_position: Point3<S>)
        ensures
            final(self).position == new_position,
            final(self).uniform.position == new_position,
            final(self).radius == old(self).radius,
            final(self).uniform.radius == old(self).uniform.radius,
            old(self).mirrored() ==> final(self).mirrored(),
    {
        self.position = new_position;
        self.uniform.update_position(new_position);
    }

    /// Resize the brush. A radius at or below zero is refused — the
    /// update is skipped and nothing changes, so a brush that started
    /// visible stays visible. Otherwise both the state and the uniform
    /// take the new radius.
    pub fn update_radius(&mut self, new_radius: S)
        ensures
            new_radius.spec_nonpositive() ==> *final(self) == *old(self),
            !new_radius.spec_nonpositive() ==> {
                &&& final(self).radius == new_radius
                &&& final(self).uniform.radius == new_radius
                &&& final(self).position == old(self).position
                &&& final(self).uniform.position == old(self).uniform.position
            },
            old(self).mirrored() ==> final(self).mirrored(),
    {
        if new_radius.is_nonpositive() {
            return ;
        }
        self.radius = new_radius;
        self.uniform.update_radius(new_radius);
    }
}

/// What the brush's render pipeline is built with, stated as plain
/// values: its uniform sits at binding 0 and is read by the fragment
/// stage only; it blends with premultiplied alpha over the scene that
/// is already in the frame; it runs without a depth test so it always
/// composites on top; it draws back-face-culled triangle lists at one
/// sample per pixel.
#[derive(Clone, Copy, PartialEq, Eq, Structural, Debug)]
pub struct BrushPipelineDesc {
    pub uniform_binding: u32,
    pub fragment_only_visibility: bool,
    pub premultiplied_alpha: bool,
    pub depth_test: bool,
    pub cull_back_faces: bool,
    pub sample_count: u32,
}

/// The brush pipeline's fixed configuration, which the shell translates
/// into its graphics library's pipeline descriptor.
pub fn brush_pipeline_desc() -> (desc: BrushPipelineDesc)
    ensures
        desc == (BrushPipelineDesc {
            uniform_binding: 0,
            fragment_only_visibility: true,
            premultiplied_alpha: true,
            depth_test: false,
            cull_back_faces: true,
            sample_count: 1,
        }),
{
    BrushPipelineDesc {
        uniform_binding: 0,
        fragment_only_visibility: true,
        premultiplied_alpha: true,
        depth_test: false,
        cull_back_faces: true,
        sample_count: 1,
    }
}

} // verus!
