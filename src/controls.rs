//! Camera steering state: which movement keys are held, and what a raw device
//! event asks of the viewer.

use vstd::prelude::*;

verus! {

/// A key that the camera controller reacts to; every other key is `Other`.
#[derive(Clone, Copy, Debug, PartialEq, Eq, Structural)]
pub enum Key {
    Space,
    LShift,
    W,
    A,
    S,
    D,
    Other,
}

/// Which of the six movement keys are currently held.
#[derive(Clone, Copy, Debug, PartialEq, Eq, Structural)]
pub struct MovementKeys {
    pub moving_left: bool,
    pub moving_right: bool,
    pub moving_forward: bool,
    pub moving_backward: bool,
    pub moving_up: bool,
    pub moving_down: bool,
}

/// Steering state after `key` went down (`pressed`) or up.
pub open spec fn with_key(m: MovementKeys, key: Key, pressed: bool) -> MovementKeys {
    match key {
        Key::Space => MovementKeys { moving_up: pressed, ..m },
        Key::LShift => MovementKeys { moving_down: pressed, ..m },
        Key::W => MovementKeys { moving_forward: pressed, ..m },
        Key::A => MovementKeys { moving_left: pressed, ..m },
        Key::S => MovementKeys { moving_backward: pressed, ..m },
        Key::D => MovementKeys { moving_right: pressed, ..m },
        Key::Other => m,
    }
}

/// Net step along one camera axis: +1 when only the positive key is held, -1 when
/// only the negative one is, 0 when both or neither are.
pub open spec fn axis_step(negative: bool, positive: bool) -> int {
    (if positive { 1int } else { 0int }) - (if negative { 1int } else { 0int })
}

/// Signed unit steps along the camera's right, front and up vectors.
#[derive(Clone, Copy, Debug, PartialEq, Eq, Structural)]
pub struct MoveDirection {
    pub right: i8,
    pub forward: i8,
    pub up: i8,
}

fn step_of(negative: bool, positive: bool) -> (s: i8)
    ensures
        s == axis_step(negative, positive),
{
    let mut s: i8 = 0;
    if positive {
        s = s + 1;
    }
    if negative {
        s = s - 1;
    }
    s
}

impl MovementKeys {
    /// No key held.
    pub fn new() -> (m: Self)
        ensures
            !m.moving_left && !m.moving_right,
            !m.moving_forward && !m.moving_backward,
            !m.moving_up && !m.moving_down,
    {
        MovementKeys {
            moving_left: false,
            moving_right: false,
            moving_forward: false,
            moving_backward: false,
            moving_up: false,
            moving_down: false,
        }
    }

    /// Records that `key` went down or up. Returns whether the key steers the camera;
    /// any other key leaves the state as it was.
    pub fn process_key(&mut self, key: Key, pressed: bool) -> (handled: bool)
        ensures
            handled == (key != Key::Other),
            *final(self) == with_key(*old(self), key, pressed),
    {
        match key {
            Key::Space => {
                self.moving_up = pressed;
                true
            },
            Key::LShift => {
                self.moving_down = pressed;
                true
            },
            Key::W => {
                self.moving_forward = pressed;
                true
            },
            Key::A => {
                self.moving_left = pressed;
                true
            },
            Key::S => {
                self.moving_backward = pressed;
                true
            },
            Key::D => {
                self.moving_right = pressed;
                true
            },
            Key::Other => false,
        }
    }

    /// The direction the held keys ask the camera to move in this frame.
    pub fn direction(&self) -> (d: MoveDirection)
        ensures
            d.right == axis_step(self.moving_left, self.moving_right),
            d.forward == axis_step(self.moving_backward, self.moving_forward),
            d.up == axis_step(self.moving_down, self.moving_up),
    {
        MoveDirection {
            right: step_of(self.moving_left, self.moving_right),
            forward: step_of(self.moving_backward, self.moving_forward),
            up: step_of(self.moving_down, self.moving_up),
        }
    }
}

/// The mouse button whose state the viewer tracks.
pub const LEFT_MOUSE_BUTTON: u32 = 1;

/// A raw device event, reduced to what the viewer reads of it.
#[derive(Clone, Copy, Debug, PartialEq, Eq, Structural)]
pub enum DeviceInput {
    Button { button: u32, pressed: bool },
    MouseMotion,
    Other,
}

/// What the viewer does with a device event.
#[derive(Clone, Copy, Debug, PartialEq, Eq, Structural)]
pub enum DeviceResponse {
    /// The event is not for the viewer.
    Unhandled,
    /// The tracked mouse button changed state.
    ButtonChanged,
    /// The mouse moved: its delta turns the camera.
    Look,
}

/// Whether the tracked mouse button is held.
#[derive(Clone, Copy, Debug, PartialEq, Eq, Structural)]
pub struct PointerState {
    pub mouse_pressed: bool,
}

impl PointerState {
    pub fn new() -> (p: Self)
        ensures
            !p.mouse_pressed,
    {
        PointerState { mouse_pressed: false }
    }

    /// Handles a device event: the tracked button updates `mouse_pressed`, motion
    /// turns the camera, anything else is left to others.
    pub fn device_input(&mut self, event: DeviceInput) -> (r: DeviceResponse)
        ensures
            match event {
                DeviceInput::Button { button, pressed } => if button == LEFT_MOUSE_BUTTON {
                    r == DeviceResponse::ButtonChanged && final(self).mouse_pressed == pressed
                } else {
                    r == DeviceResponse::Unhandled && *final(self) == *old(self)
                },
                DeviceInput::MouseMotion => r == DeviceResponse::Look && *final(self) == *old(self),
                DeviceInput::Other => r == DeviceResponse::Unhandled && *final(self) == *old(self),
            },
    {
        match event {
            DeviceInput::Button { button, pressed } => {
                if button == LEFT_MOUSE_BUTTON {
                    self.mouse_pressed = pressed;
                    DeviceResponse::ButtonChanged
                } else {
                    DeviceResponse::Unhandled
                }
            },
            DeviceInput::MouseMotion => DeviceResponse::Look,
            DeviceInput::Other => DeviceResponse::Unhandled,
        }
    }
}

} // verus!
