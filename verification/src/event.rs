//! The normalized event vocabulary a window delivers to its handler, the
//! two-valued outcome of handling one event, and the pointer images a host
//! can request.

use vstd::prelude::*;
use crate::window_info::WindowInfo;

verus! {

/// A mouse button.
#[derive(Clone, Copy, Debug, PartialEq, Eq, Structural)]
pub enum MouseButton {
    Left,
    Middle,
    Right,
    Back,
    Forward,
}

/// A normalized mouse occurrence. Positions are in logical pixels.
#[derive(Clone, Copy, Debug, PartialEq, Eq, Structural)]
pub enum MouseEvent {
    CursorMoved { x: i32, y: i32 },
    ButtonPressed(MouseButton),
    ButtonReleased(MouseButton),
    WheelScrolled { lines_x: i32, lines_y: i32 },
    CursorEntered,
    CursorLeft,
}

/// A normalized keyboard occurrence, identified by a platform-neutral code.
#[derive(Clone, Copy, Debug, PartialEq, Eq, Structural)]
pub enum KeyboardEvent {
    KeyPressed { code: u32 },
    KeyReleased { code: u32 },
}

/// A window lifecycle occurrence.
#[derive(Clone, Copy, Debug, PartialEq, Eq, Structural)]
pub enum WindowEvent {
    /// The window now has the size the report carries.
    Resized(WindowInfo),
    Focused,
    Unfocused,
    /// The window is about to close.
    WillClose,
}

/// One normalized event, as handed to `WindowHandler::on_event`.
#[derive(Clone, Copy, Debug, PartialEq, Eq, Structural)]
pub enum Event {
    Mouse(MouseEvent),
    Keyboard(KeyboardEvent),
    Window(WindowEvent),
}

/// What the handler made of an event: consumed, or left for the embedding
/// host to act on. The status never affects whether later events are
/// delivered.
#[derive(Clone, Copy, Debug, PartialEq, Eq, Structural)]
pub enum EventStatus {
    Captured,
    Ignored,
}

/// The pointer image shown over the window.
#[derive(Clone, Copy, Debug, PartialEq, Eq, Structural)]
pub enum MouseCursor {
    Default,
    Hand,
    HandGrabbing,
    Help,
    Hidden,
    Text,
    Crosshair,
    Move,
    NotAllowed,
    ResizeHorizontal,
    ResizeVertical,
    Working,
}

} // verus!
