use eris::controls::{
    DeviceInput, DeviceResponse, Key, MoveDirection, MovementKeys, PointerState, LEFT_MOUSE_BUTTON,
};

#[test]
fn each_movement_key_sets_its_own_flag() {
    let cases = [
        (Key::Space, MovementKeys { moving_up: true, ..MovementKeys::new() }),
        (Key::LShift, MovementKeys { moving_down: true, ..MovementKeys::new() }),
        (Key::W, MovementKeys { moving_forward: true, ..MovementKeys::new() }),
        (Key::A, MovementKeys { moving_left: true, ..MovementKeys::new() }),
        (Key::S, MovementKeys { moving_backward: true, ..MovementKeys::new() }),
        (Key::D, MovementKeys { moving_right: true, ..MovementKeys::new() }),
    ];
    for (key, expected) in cases {
        let mut m = MovementKeys::new();
        assert!(m.process_key(key, true));
        assert_eq!(m, expected);
        assert!(m.process_key(key, false));
        assert_eq!(m, MovementKeys::new());
    }
}

#[test]
fn other_keys_are_not_handled() {
    let mut m = MovementKeys::new();
    m.process_key(Key::W, true);
    let before = m;
    assert!(!m.process_key(Key::Other, true));
    assert_eq!(m, before);
}

#[test]
fn direction_follows_held_keys() {
    let mut m = MovementKeys::new();
    assert_eq!(m.direction(), MoveDirection { right: 0, forward: 0, up: 0 });
    m.process_key(Key::D, true);
    m.process_key(Key::W, true);
    m.process_key(Key::LShift, true);
    assert_eq!(m.direction(), MoveDirection { right: 1, forward: 1, up: -1 });
    m.process_key(Key::A, true);
    m.process_key(Key::S, true);
    assert_eq!(m.direction(), MoveDirection { right: 0, forward: 0, up: -1 });
    m.process_key(Key::D, false);
    assert_eq!(m.direction(), MoveDirection { right: -1, forward: 0, up: -1 });
}

#[test]
fn left_button_tracks_mouse_pressed() {
    let mut p = PointerState::new();
    let r = p.device_input(DeviceInput::Button { button: LEFT_MOUSE_BUTTON, pressed: true });
    assert_eq!(r, DeviceResponse::ButtonChanged);
    assert!(p.mouse_pressed);
    let r = p.device_input(DeviceInput::Button { button: 1, pressed: false });
    assert_eq!(r, DeviceResponse::ButtonChanged);
    assert!(!p.mouse_pressed);
}

#[test]
fn other_buttons_and_events_are_unhandled() {
    let mut p = PointerState::new();
    p.device_input(DeviceInput::Button { button: 1, pressed: true });
    assert_eq!(p.device_input(DeviceInput::Button { button: 3, pressed: false }), DeviceResponse::Unhandled);
    assert!(p.mouse_pressed);
    assert_eq!(p.device_input(DeviceInput::Other), DeviceResponse::Unhandled);
    assert!(p.mouse_pressed);
}

#[test]
fn mouse_motion_turns_the_camera() {
    let mut p = PointerState::new();
    assert_eq!(p.device_input(DeviceInput::MouseMotion), DeviceResponse::Look);
    assert!(!p.mouse_pressed);
}
