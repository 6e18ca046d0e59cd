//! The pointer as the engine sees it: where the cursor is and whether the
//! primary button is held, folded out of a stream of input events.

use crate::geometry::Point;
use vstd::prelude::*;

verus! {

/// Whether a button went down or came up.
#[derive(Clone, Copy, Debug, PartialEq, Eq, Structural)]
pub enum ButtonState {
    Pressed,
    Released,
}

/// Which mouse button an event is about.
#[derive(Clone, Copy, Debug, PartialEq, Eq, Structural)]
pub enum MouseButton {
    Left,
    Right,
    Middle,
    Other(u8),
}

/// One input event, as far as the puzzle cares.
#[derive(Clone, Copy, Debug, PartialEq, Eq, Structural)]
pub enum InputEvent {
    /// The cursor moved to a new position.
    CursorMoved { x: i32, y: i32 },
    /// Something else, such as a user interface, took hold of the cursor.
    CursorTaken,
    /// The cursor was given back.
    CursorReturned,
    /// A mouse button was pressed or released.
    MouseInput { button: MouseButton, state: ButtonState },
    /// Any event the puzzle does not react to.
    Other,
}

/// The pointer state that one tick of the puzzle consumes.
#[derive(Clone, Copy, Debug, PartialEq, Eq, Structural)]
pub struct VennInput {
    pub cursor_position: Point,
    pub is_cursor_taken: bool,
    pub is_mouse_pressed: bool,
}

impl VennInput {
    /// The pointer before any event: at the origin, free, button up.
    pub open spec fn spec_new() -> VennInput {
        VennInput {
            cursor_position: Point { x: 0, y: 0 },
            is_cursor_taken: false,
            is_mouse_pressed: false,
        }
    }

    /// The pointer state after `event`.
    ///
    /// A move sets the position. Taking and returning the cursor set and
    /// clear the taken flag. Pressing the left button holds it only while
    /// the cursor is free; releasing it lets go. Every other event leaves
    /// the state as it is.
    pub open spec fn spec_update(self, event: InputEvent) -> VennInput {
        match event {
            InputEvent::CursorMoved { x, y } => VennInput {
                cursor_position: Point { x, y },
                ..self
            },
            InputEvent::CursorTaken => VennInput { is_cursor_taken: true, ..self },
            InputEvent::CursorReturned => VennInput { is_cursor_taken: false, ..self },
            InputEvent::MouseInput { button: MouseButton::Left, state: ButtonState::Pressed } => {
                VennInput { is_mouse_pressed: !self.is_cursor_taken, ..self }
            },
            InputEvent::MouseInput { button: MouseButton::Left, state: ButtonState::Released } => {
                VennInput { is_mouse_pressed: false, ..self }
            },
            _ => self,
        }
    }

    /// The pointer before any event: at the origin, free, button up.
    pub fn new() -> (input: VennInput)
        ensures
            input == Self::spec_new(),
    {
        VennInput {
            cursor_position: Point { x: 0, y: 0 },
            is_cursor_taken: false,
            is_mouse_pressed: false,
        }
    }

    /// Takes one event into the pointer state.
    pub fn update(&mut self, event: InputEvent)
        ensures
            *final(self) == old(self).spec_update(event),
    {
        match event {
            InputEvent::CursorMoved { x, y } => {
                self.cursor_position = Point { x, y };
            },
            InputEvent::CursorTaken => {
                self.is_cursor_taken = true;
            },
            InputEvent::CursorReturned => {
                self.is_cursor_taken = false;
            },
            InputEvent::MouseInput { button: MouseButton::Left, state } => match state {
                ButtonState::Pressed => {
                    self.is_mouse_pressed = !self.is_cursor_taken;
                },
                ButtonState::Released => {
                    self.is_mouse_pressed = false;
                },
            },
            _ => {},
        }
    }

    /// Ends a tick. The pointer state holds nothing that a tick uses up, so
    /// it stays as it is.
    pub fn clear(&mut self)
        ensures
            *final(self) == *old(self),
    {
    }
}

} // verus!
