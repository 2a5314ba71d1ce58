//! Window events as the core sees them.
//!
//! The event source (a windowing library) hands the shell raw platform
//! events; the shell converts them to this type, keeping only what the
//! core's decisions read. Cursor coordinates pass through as an opaque
//! scalar payload `S`.

use vstd::prelude::*;

verus! {

/// The physical keys the camera controller distinguishes. Every other
/// recognised key maps to `Other`; a key the platform could not identify
/// yields no `KeyboardInput` event at all.
#[derive(Clone, Copy, PartialEq, Eq, Structural, Debug)]
pub enum Key {
    ArrowLeft,
    ArrowRight,
    ArrowUp,
    ArrowDown,
    KeyA,
    KeyD,
    KeyS,
    KeyW,
    Escape,
    Other,
}

/// A window event, with cursor coordinates carried opaquely as `S`.
#[derive(Clone, Copy, PartialEq, Debug)]
pub enum WindowEvent<S> {
    CloseRequested,
    KeyboardInput { key: Key, pressed: bool },
    CursorMoved { x: S, y: S },
    /// A scroll step; `upward` is the sign of the wheel delta, computed
    /// by the shell at the input edge.
    MouseWheel { upward: bool },
    Resized { width: u32, height: u32 },
    RedrawRequested,
    Other,
}

} // verus!
