//! Frame-driver decisions: what the event loop does with each window
//! event, how a failed frame acquisition is answered, and the
//! zero-dimension guard on surface resizing.
//!
//! The loop itself (window creation, GPU submission, presentation) is the
//! shell's; it performs the action each decision here names.

use vstd::prelude::*;
use crate::events::{Key, WindowEvent};

verus! {

/// What the event loop should do with an event that the camera
/// controller did not consume.
#[derive(Clone, Copy, PartialEq, Debug)]
pub enum Action<S> {
    /// Leave the event loop.
    Exit,
    /// Move the brush to the cursor position.
    MoveBrush { x: S, y: S },
    /// Ask the brush for one radius step outward.
    GrowBrush,
    /// Ask the brush for one radius step inward.
    ShrinkBrush,
    /// Reconfigure the surface to the new size.
    Resize { width: u32, height: u32 },
    /// Redraw one frame: update uniforms, record draws, present.
    Redraw,
    /// Nothing to do.
    Ignore,
}

/// Decide the event loop's response to one window event.
///
/// Keyboard input is offered to the camera controller first; an event
/// reaches this decision only when the controller left it unhandled, but
/// the mapping is total so the loop's behaviour is fixed either way.
pub fn dispatch_event<S: Copy>(event: &WindowEvent<S>) -> (action: Action<S>)
    ensures
        match *event {
            WindowEvent::CloseRequested => action is Exit,
            WindowEvent::KeyboardInput { key, pressed } => {
                if key == Key::Escape && pressed {
                    action is Exit
                } else {
                    action is Ignore
                }
            },
            WindowEvent::CursorMoved { x, y } => action == (Action::MoveBrush { x, y }),
            WindowEvent::MouseWheel { upward } => {
                if upward {
                    action is GrowBrush
                } else {
                    action is ShrinkBrush
                }
            },
            WindowEvent::Resized { width, height } => action == (Action::<S>::Resize { width, height }),
            WindowEvent::RedrawRequested => action is Redraw,
            WindowEvent::Other => action is Ignore,
        },
{
    match *event {
        WindowEvent::CloseRequested => Action::Exit,
        WindowEvent::KeyboardInput { key, pressed } => {
            if key == Key::Escape && pressed {
                Action::Exit
            } else {
                Action::Ignore
            }
        },
        WindowEvent::CursorMoved { x, y } => Action::MoveBrush { x, y },
        WindowEvent::MouseWheel { upward } => {
            if upward {
                Action::GrowBrush
            } else {
                Action::ShrinkBrush
            }
        },
        WindowEvent::Resized { width, height } => Action::Resize { width, height },
        WindowEvent::RedrawRequested => Action::Redraw,
        WindowEvent::Other => Action::Ignore,
    }
}

/// The ways acquiring or presenting a frame can fail, as the core
/// classifies them.
#[derive(Clone, Copy, PartialEq, Eq, Structural, Debug)]
pub enum SurfaceError {
    Lost,
    Outdated,
    OutOfMemory,
    Timeout,
}

/// How the frame loop answers a failed frame.
#[derive(Clone, Copy, PartialEq, Eq, Structural, Debug)]
pub enum RecoveryAction {
    /// Reconfigure the surface with the last known size and retry on the
    /// next frame.
    Reconfigure,
    /// Fatal: leave the event loop.
    Exit,
    /// Transient: log and carry on with no state change.
    Continue,
}

/// Decide the frame loop's response to a render error: a lost or
/// outdated surface is reconfigured, out-of-memory is fatal, a timeout
/// is waited out.
pub fn render_error_action(error: SurfaceError) -> (action: RecoveryAction)
    ensures
        action == match error {
            SurfaceError::Lost => RecoveryAction::Reconfigure,
            SurfaceError::Outdated => RecoveryAction::Reconfigure,
            SurfaceError::OutOfMemory => RecoveryAction::Exit,
            SurfaceError::Timeout => RecoveryAction::Continue,
        },
{
    match error {
        SurfaceError::Lost | SurfaceError::Outdated => RecoveryAction::Reconfigure,
        SurfaceError::OutOfMemory => RecoveryAction::Exit,
        SurfaceError::Timeout => RecoveryAction::Continue,
    }
}

/// The surface's configured size in pixels.
#[derive(Clone, Copy, PartialEq, Eq, Structural, Debug)]
pub struct SurfaceSize {
    pub width: u32,
    pub height: u32,
}

impl SurfaceSize {
    /// Apply a resize request. A request with a zero dimension is
    /// skipped: the surface cannot be configured to an empty extent, so
    /// the old size stays and the caller must not reconfigure.
    pub fn resize(&mut self, new_width: u32, new_height: u32) -> (applied: bool)
        ensures
            applied == (new_width > 0 && new_height > 0),
            applied ==> *final(self) == (SurfaceSize { width: new_width, height: new_height }),
            !applied ==> *final(self) == *old(self),
    {
        if new_width > 0 && new_height > 0 {
            self.width = new_width;
            self.height = new_height;
            true
        } else {
            false
        }
    }
}

} // verus!
