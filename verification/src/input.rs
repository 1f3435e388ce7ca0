//! What the user's input asks for.

use crate::geometry::Point3;
use vstd::prelude::*;

verus! {

/// Whether a key or a button went down or up.
#[derive(Clone, Copy, Debug, PartialEq, Eq, Structural)]
pub enum ElementState {
    Pressed,
    Released,
}

/// The keys that mean something here, and all the others.
#[derive(Clone, Copy, Debug, PartialEq, Eq, Structural)]
pub enum VirtualKeyCode {
    Escape,
    Key1,
    Key2,
    Other,
}

/// A key going down or up.
#[derive(Clone, Copy, Debug, PartialEq, Eq, Structural)]
pub struct KeyboardInput {
    /// Whether the key went down or up.
    pub state: ElementState,
    /// Which key it was, if the system could tell.
    pub virtual_keycode: Option<VirtualKeyCode>,
}

/// The buttons of a mouse.
#[derive(Clone, Copy, Debug, PartialEq, Eq, Structural)]
pub enum MouseButton {
    Left,
    Right,
    Middle,
    Other,
}

/// What the input has asked for since the actions were last looked at.
#[derive(Clone, Copy, Debug, PartialEq, Eq, Structural)]
pub struct Actions {
    pub exit: bool,
    pub toggle_model: bool,
    pub toggle_mesh: bool,
}

impl Actions {
    /// Actions of which none has been asked for.
    pub fn new() -> (actions: Actions)
        ensures
            actions == (Actions { exit: false, toggle_model: false, toggle_mesh: false }),
    {
        Actions { exit: false, toggle_model: false, toggle_mesh: false }
    }
}

/// Whether the model is being moved.
#[derive(Clone, Copy, Debug, PartialEq, Eq, Structural)]
pub struct Movement {
    pub started: bool,
}

impl Movement {
    /// No movement is going on.
    pub fn new() -> (movement: Movement)
        ensures
            !movement.started,
    {
        Movement { started: false }
    }

    /// Movement starts.
    pub fn start(&mut self)
        ensures
            final(self).started,
    {
        self.started = true;
    }

    /// Movement stops.
    pub fn stop(&mut self)
        ensures
            !final(self).started,
    {
        self.started = false;
    }
}

/// Whether the model is being rotated, and about which point.
#[derive(Clone, Copy, Debug, PartialEq, Eq, Structural)]
pub struct Rotation {
    pub active: bool,
    pub focus_point: Option<Point3>,
}

impl Rotation {
    /// No rotation is going on.
    pub fn new() -> (rotation: Rotation)
        ensures
            rotation == (Rotation { active: false, focus_point: None }),
    {
        Rotation { active: false, focus_point: None }
    }

    /// Rotation starts, about the given point.
    pub fn start(&mut self, focus_point: Option<Point3>)
        ensures
            *final(self) == (Rotation { active: true, focus_point }),
    {
        self.active = true;
        self.focus_point = focus_point;
    }

    /// Rotation stops. The point it was about is kept.
    pub fn stop(&mut self)
        ensures
            *final(self) == (Rotation { active: false, ..*old(self) }),
    {
        self.active = false;
    }
}

/// What the handler of input events decides on: which of moving and
/// rotating is going on.
#[derive(Clone, Copy, Debug, PartialEq, Eq, Structural)]
pub struct Handler {
    pub movement: Movement,
    pub rotation: Rotation,
}

/// The actions once a key event has been seen: a key that goes down asks
/// for what it stands for; nothing else asks for anything.
pub open spec fn after_key(actions: Actions, input: KeyboardInput) -> Actions {
    match (input.state, input.virtual_keycode) {
        (ElementState::Pressed, Some(VirtualKeyCode::Escape)) => Actions { exit: true, ..actions },
        (ElementState::Pressed, Some(VirtualKeyCode::Key1)) => Actions {
            toggle_model: true,
            ..actions
        },
        (ElementState::Pressed, Some(VirtualKeyCode::Key2)) => Actions {
            toggle_mesh: true,
            ..actions
        },
        _ => actions,
    }
}

/// The handler once a mouse button event has been seen: the left button
/// rotates while it is down, the right button moves.
pub open spec fn after_button(
    handler: Handler,
    button: MouseButton,
    state: ElementState,
    focus_point: Option<Point3>,
) -> Handler {
    match (button, state) {
        (MouseButton::Left, ElementState::Pressed) => Handler {
            rotation: Rotation { active: true, focus_point },
            ..handler
        },
        (MouseButton::Left, ElementState::Released) => Handler {
            rotation: Rotation { active: false, ..handler.rotation },
            ..handler
        },
        (MouseButton::Right, ElementState::Pressed) => Handler {
            movement: Movement { started: true },
            ..handler
        },
        (MouseButton::Right, ElementState::Released) => Handler {
            movement: Movement { started: false },
            ..handler
        },
        _ => handler,
    }
}

impl Handler {
    /// A handler that has seen no input.
    pub fn new() -> (handler: Handler)
        ensures
            handler == (Handler {
                movement: Movement { started: false },
                rotation: Rotation { active: false, focus_point: None },
            }),
    {
        Handler { movement: Movement::new(), rotation: Rotation::new() }
    }

    /// Takes note of a key going down or up.
    pub fn handle_keyboard_input(&mut self, input: KeyboardInput, actions: &mut Actions)
        ensures
            *final(self) == *old(self),
            *final(actions) == after_key(*old(actions), input),
    {
        match (input.state, input.virtual_keycode) {
            (ElementState::Pressed, Some(virtual_key_code)) => {
                match virtual_key_code {
                    VirtualKeyCode::Escape => {
                        actions.exit = true;
                    },
                    VirtualKeyCode::Key1 => {
                        actions.toggle_model = true;
                    },
                    VirtualKeyCode::Key2 => {
                        actions.toggle_mesh = true;
                    },
                    _ => {},
                }
            },
            _ => {},
        }
    }

    /// Takes note of a mouse button going down or up. `focus_point` is the
    /// point of the model under the cursor, if there is one.
    pub fn handle_mouse_input(
        &mut self,
        button: MouseButton,
        state: ElementState,
        focus_point: Option<Point3>,
    )
        ensures
            *final(self) == after_button(*old(self), button, state, focus_point),
    {
        match (button, state) {
            (MouseButton::Left, ElementState::Pressed) => {
                self.rotation.start(focus_point);
            },
            (MouseButton::Left, ElementState::Released) => {
                self.rotation.stop();
            },
            (MouseButton::Right, ElementState::Pressed) => {
                self.movement.start();
            },
            (MouseButton::Right, ElementState::Released) => {
                self.movement.stop();
            },
            _ => {},
        }
    }
}

} // verus!
