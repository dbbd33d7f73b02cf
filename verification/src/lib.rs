//! Transient user-input state for an immediate-mode GUI toolkit: which mouse
//! buttons are down and where they went down, where the pointer is, which
//! modifier keys are held, and which widget captures the keyboard or the mouse.

pub mod button_map;
pub mod events;
pub mod keyboard;
pub mod mouse;
pub mod point;
pub mod state;

pub use button_map::ButtonMap;
pub use events::{Button, Index, Input, Motion, UiEvent};
pub use keyboard::get_modifier;
pub use mouse::NUM_MOUSE_BUTTONS;
pub use point::{ButtonDownPosition, Point};
pub use state::InputState;
