//! Core of a single-surface 3D rendering harness: the model/mesh/material
//! data model, the per-frame draw protocol over an abstract render pass,
//! the camera input controller, the brush overlay's uniform mirror, and
//! the frame driver's event and error decisions.
//!
//! GPU resources are referred to by opaque handles, and scalars are a
//! type parameter carrying their own arithmetic: the logic is proved for
//! any scalar, the shell instantiates it at the renderer's float type,
//! and only the projection-matrix math itself stays outside the core.

pub mod events;
pub mod geometry;
pub mod driver;
pub mod vertex;
pub mod model;
pub mod camera;
pub mod brush;
