use rendercore::camera::CameraController;
use rendercore::events::{Key, WindowEvent};

type Event = WindowEvent<i64>;

fn key(key: Key, pressed: bool) -> Event {
    WindowEvent::KeyboardInput { key, pressed }
}

#[test]
fn press_and_release_drive_the_forward_flag() {
    let mut controller = CameraController::new(7);
    assert!(controller.handle_event(&key(Key::KeyW, true)));
    assert!(controller.forward);
    assert!(!controller.backward && !controller.left && !controller.right);
    assert!(controller.handle_event(&key(Key::KeyW, false)));
    assert!(!controller.forward);
    assert_eq!(controller.speed, 7);
}

#[test]
fn arrows_and_letters_share_flags() {
    let mut controller = CameraController::new(1);
    controller.handle_event(&key(Key::ArrowUp, true));
    assert!(controller.forward);
    controller.handle_event(&key(Key::ArrowLeft, true));
    assert!(controller.left);
    controller.handle_event(&key(Key::KeyS, true));
    assert!(controller.backward);
    controller.handle_event(&key(Key::ArrowRight, true));
    assert!(controller.right);
    controller.handle_event(&key(Key::KeyA, false));
    assert!(!controller.left);
    controller.handle_event(&key(Key::KeyD, false));
    assert!(!controller.right);
    assert!(controller.forward && controller.backward);
}

#[test]
fn every_keyboard_event_is_consumed() {
    let mut controller = CameraController::new(1);
    assert!(controller.handle_event(&key(Key::Other, true)));
    assert!(controller.handle_event(&key(Key::Escape, true)));
    assert!(
        !controller.forward && !controller.backward && !controller.left && !controller.right
    );
}

#[test]
fn non_keyboard_events_are_left_alone() {
    let mut controller = CameraController::new(1);
    controller.handle_event(&key(Key::KeyW, true));
    assert!(!controller.handle_event(&Event::CursorMoved { x: 3, y: 4 }));
    assert!(!controller.handle_event(&Event::RedrawRequested));
    assert!(!controller.handle_event(&Event::CloseRequested));
    assert!(controller.forward);
}
