//! The events that the toolkit hands to the input state.

use crate::point::Point;
use input::{Key, MouseButton};
use vstd::prelude::*;

verus! {

/// A reference to a widget: an identity by which the widget tree finds it. The
/// tree owns the widget.
#[derive(Copy, Clone, Debug, PartialEq, Eq, Structural)]
pub struct Index(pub usize);

/// A button of some device.
#[derive(Copy, Clone, Debug, PartialEq)]
pub enum Button {
    /// A keyboard key.
    Keyboard(Key),
    /// A mouse button.
    Mouse(MouseButton),
}

/// A motion of some device.
#[derive(Copy, Clone, Debug, PartialEq)]
pub enum Motion {
    /// The pointer's position in window coordinates.
    MouseCursor(Point),
    /// The pointer's position relative to the centre of the window, which is
    /// the position that the toolkit works with.
    MouseRelative(Point),
    /// A scroll by the given amounts.
    MouseScroll(Point),
}

/// An event of the window.
#[derive(Copy, Clone, Debug, PartialEq)]
pub enum Input {
    /// A button went down.
    Press(Button),
    /// A button came up.
    Release(Button),
    /// A device moved.
    Move(Motion),
    /// The window was resized to the given width and height.
    Resize(u32, u32),
    /// The window gained or lost focus.
    Focus(bool),
    /// The pointer entered or left the window.
    Cursor(bool),
}

/// An event of the toolkit.
#[derive(Copy, Clone, Debug, PartialEq)]
pub enum UiEvent {
    /// An event of the window, as it came.
    Raw(Input),
    /// The widget begins to capture the keyboard.
    WidgetCapturesKeyboard(Index),
    /// The widget stops capturing the keyboard.
    WidgetUncapturesKeyboard(Index),
    /// The widget begins to capture the mouse.
    WidgetCapturesMouse(Index),
    /// The widget stops capturing the mouse.
    WidgetUncapturesMouse(Index),
}

} // verus!
