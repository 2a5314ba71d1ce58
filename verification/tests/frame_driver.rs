use rendercore::driver::{
    dispatch_event, render_error_action, Action, RecoveryAction, SurfaceError, SurfaceSize,
};
use rendercore::events::{Key, WindowEvent};

type Event = WindowEvent<f64>;

#[test]
fn close_and_escape_exit() {
    assert_eq!(dispatch_event(&Event::CloseRequested), Action::Exit);
    assert_eq!(
        dispatch_event(&Event::KeyboardInput { key: Key::Escape, pressed: true }),
        Action::Exit
    );
    assert_eq!(
        dispatch_event(&Event::KeyboardInput { key: Key::Escape, pressed: false }),
        Action::Ignore
    );
    assert_eq!(
        dispatch_event(&Event::KeyboardInput { key: Key::KeyW, pressed: true }),
        Action::Ignore
    );
}

#[test]
fn cursor_scroll_resize_and_redraw_map_to_their_actions() {
    assert_eq!(
        dispatch_event(&Event::CursorMoved { x: 12.5, y: -3.0 }),
        Action::MoveBrush { x: 12.5, y: -3.0 }
    );
    assert_eq!(dispatch_event(&Event::MouseWheel { upward: true }), Action::GrowBrush);
    assert_eq!(dispatch_event(&Event::MouseWheel { upward: false }), Action::ShrinkBrush);
    assert_eq!(
        dispatch_event(&Event::Resized { width: 640, height: 480 }),
        Action::Resize { width: 640, height: 480 }
    );
    assert_eq!(dispatch_event(&Event::RedrawRequested), Action::Redraw);
    assert_eq!(dispatch_event(&Event::Other), Action::Ignore);
}

#[test]
fn surface_errors_follow_the_recovery_policy() {
    assert_eq!(render_error_action(SurfaceError::Lost), RecoveryAction::Reconfigure);
    assert_eq!(render_error_action(SurfaceError::Outdated), RecoveryAction::Reconfigure);
    assert_eq!(render_error_action(SurfaceError::OutOfMemory), RecoveryAction::Exit);
    assert_eq!(render_error_action(SurfaceError::Timeout), RecoveryAction::Continue);
}

#[test]
fn resize_skips_zero_dimensions() {
    let mut size = SurfaceSize { width: 800, height: 600 };
    assert!(!size.resize(0, 450));
    assert_eq!(size, SurfaceSize { width: 800, height: 600 });
    assert!(!size.resize(450, 0));
    assert_eq!(size, SurfaceSize { width: 800, height: 600 });
}

#[test]
fn resize_applies_nonzero_dimensions() {
    let mut size = SurfaceSize { width: 800, height: 600 };
    assert!(size.resize(1024, 768));
    assert_eq!(size, SurfaceSize { width: 1024, height: 768 });
}
