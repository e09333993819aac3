//! What the tray icon and the window chrome report, as far as the shell
//! reads it.

use vstd::prelude::*;

verus! {

/// A mouse button.
#[derive(Clone, Copy, Debug, PartialEq, Eq, Structural)]
pub enum MouseButton {
    Left,
    Right,
    Middle,
}

/// Whether a mouse button was pressed or let go.
#[derive(Clone, Copy, Debug, PartialEq, Eq, Structural)]
pub enum MouseButtonState {
    Up,
    Down,
}

/// An event on the tray icon itself, not on its context menu.
#[derive(Clone, Copy, Debug, PartialEq, Eq, Structural)]
pub enum TrayIconEvent {
    /// One half of a click: a button went down or came up over the icon.
    Click { button: MouseButton, button_state: MouseButtonState },
    /// Anything else: a double click, or the pointer entering, moving over or
    /// leaving the icon.
    Other,
}

/// An event on the main window.
#[derive(Clone, Copy, Debug, PartialEq, Eq, Structural)]
pub enum WindowEvent {
    /// The user asked for the window to be closed.
    CloseRequested,
    /// Anything else: a move, a resize, a change of focus and the like.
    Other,
}

} // verus!
