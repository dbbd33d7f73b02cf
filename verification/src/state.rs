//! The state of user input, and how each event of the toolkit changes it.

use crate::button_map::{all_up, ButtonMap};
use crate::events::{Button, Index, Input, Motion, UiEvent};
use crate::keyboard::{
    get_modifier, insert_modifier, key_code, modifier_bits, modifier_of_code, no_modifier,
    remove_modifier,
};
use crate::mouse::{button_index, NUM_MOUSE_BUTTONS};
use crate::point::{ButtonDownPosition, Point};
use input::keyboard::ModifierKey;
use input::{Key, MouseButton};
use vstd::prelude::*;

verus! {

/// Holds the current state of user input. This includes the state of all buttons on
/// the keyboard and mouse, as well as the position of the mouse. It also includes which
/// widgets, if any, are capturing keyboard and mouse input.
#[derive(Copy, Clone, Debug, PartialEq)]
pub struct InputState {
    /// A map that stores the up/down state of each button. If the button is down, then
    /// it stores the position of the mouse when the button was first pressed.
    pub mouse_buttons: ButtonMap,
    /// The current position of the mouse.
    pub mouse_position: Point,
    /// Which widget, if any, is currently capturing the keyboard
    pub widget_capturing_keyboard: Option<Index>,
    /// Which widget, if any, is currently capturing the mouse
    pub widget_capturing_mouse: Option<Index>,
    /// Which modifier keys are being held down.
    pub modifiers: ModifierKey,
}

/// What an input state holds: the slot of each mouse button by its identity, the
/// pointer's position, the two capture slots, and the bits of the modifier set.
pub struct InputStateView {
    pub mouse_buttons: Seq<ButtonDownPosition>,
    pub mouse_position: Point,
    pub widget_capturing_keyboard: Option<Index>,
    pub widget_capturing_mouse: Option<Index>,
    pub modifiers: u8,
}

impl View for InputState {
    type V = InputStateView;

    open spec fn view(&self) -> InputStateView {
        InputStateView {
            mouse_buttons: self.mouse_buttons@,
            mouse_position: self.mouse_position,
            widget_capturing_keyboard: self.widget_capturing_keyboard,
            widget_capturing_mouse: self.widget_capturing_mouse,
            modifiers: modifier_bits(self.modifiers),
        }
    }
}

/// The state before any event: no button down, the pointer at the origin, no
/// modifier held, nothing captured.
pub open spec fn initial_state() -> InputStateView {
    InputStateView {
        mouse_buttons: all_up(),
        mouse_position: Point::origin(),
        widget_capturing_keyboard: None,
        widget_capturing_mouse: None,
        modifiers: 0,
    }
}

/// The state that `event` leaves behind when it arrives in `state`.
pub open spec fn updated(state: InputStateView, event: UiEvent) -> InputStateView {
    match event {
        UiEvent::Raw(Input::Press(Button::Mouse(button))) => InputStateView {
            mouse_buttons: state.mouse_buttons.update(
                button_index(button) as int,
                Some(state.mouse_position),
            ),
            ..state
        },
        UiEvent::Raw(Input::Release(Button::Mouse(button))) => InputStateView {
            mouse_buttons: state.mouse_buttons.update(button_index(button) as int, None),
            ..state
        },
        UiEvent::Raw(Input::Move(Motion::MouseRelative(position))) => InputStateView {
            mouse_position: position,
            ..state
        },
        UiEvent::Raw(Input::Press(Button::Keyboard(key))) => match modifier_of_code(
            key_code(key),
        ) {
            Some(bits) => InputStateView { modifiers: state.modifiers | bits, ..state },
            None => state,
        },
        UiEvent::Raw(Input::Release(Button::Keyboard(key))) => match modifier_of_code(
            key_code(key),
        ) {
            Some(bits) => InputStateView { modifiers: state.modifiers & !bits, ..state },
            None => state,
        },
        UiEvent::WidgetCapturesKeyboard(idx) => InputStateView {
            widget_capturing_keyboard: Some(idx),
            ..state
        },
        UiEvent::WidgetUncapturesKeyboard(_) => InputStateView {
            widget_capturing_keyboard: None,
            ..state
        },
        UiEvent::WidgetCapturesMouse(idx) => InputStateView {
            widget_capturing_mouse: Some(idx),
            ..state
        },
        UiEvent::WidgetUncapturesMouse(_) => InputStateView {
            widget_capturing_mouse: None,
            ..state
        },
        _ => state,
    }
}

impl InputState {
    /// Returns a fresh new input state
    pub fn new() -> (state: InputState)
        ensures
            state@ == initial_state(),
    {
        InputState {
            mouse_buttons: ButtonMap::new(),
            mouse_position: Point::origin(),
            widget_capturing_keyboard: None,
            widget_capturing_mouse: None,
            modifiers: no_modifier(),
        }
    }

    /// Updates the input state based on an event.
    pub fn update(&mut self, event: &UiEvent)
        ensures
            final(self)@ == updated(old(self)@, *event),
    {
        match *event {
            UiEvent::Raw(Input::Press(Button::Mouse(mouse_button))) => {
                self.mouse_buttons.set(mouse_button, Some(self.mouse_position));
            },
            UiEvent::Raw(Input::Release(Button::Mouse(mouse_button))) => {
                self.mouse_buttons.set(mouse_button, None);
            },
            UiEvent::Raw(Input::Move(Motion::MouseRelative(position))) => {
                self.mouse_position = position;
            },
            UiEvent::Raw(Input::Press(Button::Keyboard(key))) => {
                if let Some(modifier) = get_modifier(key) {
                    insert_modifier(&mut self.modifiers, modifier);
                }
            },
            UiEvent::Raw(Input::Release(Button::Keyboard(key))) => {
                if let Some(modifier) = get_modifier(key) {
                    remove_modifier(&mut self.modifiers, modifier);
                }
            },
            UiEvent::WidgetCapturesKeyboard(idx) => {
                self.widget_capturing_keyboard = Some(idx);
            },
            UiEvent::WidgetUncapturesKeyboard(_) => {
                self.widget_capturing_keyboard = None;
            },
            UiEvent::WidgetCapturesMouse(idx) => {
                self.widget_capturing_mouse = Some(idx);
            },
            UiEvent::WidgetUncapturesMouse(_) => {
                self.widget_capturing_mouse = None;
            },
            _ => {},
        }
    }

    /// Returns a copy of the state as it looks from another origin. Positions are
    /// carried bit for bit and never computed with, so the caller subtracts the
    /// origin from `mouse_position` and hands in the difference. Everything else
    /// is copied unchanged: the positions at which the buttons went down stay in
    /// the coordinates in which they were recorded.
    pub fn relative_to(&self, relative_mouse_position: Point) -> (state: InputState)
        ensures
            state == (InputState { mouse_position: relative_mouse_position, ..*self }),
    {
        InputState { mouse_position: relative_mouse_position, ..*self }
    }
}


/// The order of events matters. A button that goes down before the pointer moves
/// is recorded at the position that the pointer had when it went down, not at
/// the one it moved to; one that goes down after the move is recorded at the
/// new position. Either way the pointer ends at the new position.
pub proof fn lemma_press_records_position_at_press_time(
    state: InputState,
    button: MouseButton,
    position: Point,
)
    requires
        button_index(button) < NUM_MOUSE_BUTTONS,
    ensures
        ({
            let press = UiEvent::Raw(Input::Press(Button::Mouse(button)));
            let motion = UiEvent::Raw(Input::Move(Motion::MouseRelative(position)));
            let press_first = updated(updated(state@, press), motion);
            let move_first = updated(updated(state@, motion), press);
            &&& press_first.mouse_buttons[button_index(button) as int] == Some(
                state.mouse_position,
            )
            &&& move_first.mouse_buttons[button_index(button) as int] == Some(position)
            &&& press_first.mouse_position == position
            &&& move_first.mouse_position == position
        }),
{
    state.mouse_buttons.lemma_len();
}

/// The last capture notification wins: a widget that captures the keyboard or
/// the mouse replaces whichever widget held it, and a widget that gives it up
/// empties the slot whether or not it was the one that held it.
pub proof fn lemma_capture_last_writer_wins(state: InputStateView, holder: Index, other: Index)
    ensures
        updated(
            updated(state, UiEvent::WidgetCapturesKeyboard(holder)),
            UiEvent::WidgetCapturesKeyboard(other),
        ).widget_capturing_keyboard == Some(other),
        updated(
            updated(state, UiEvent::WidgetCapturesKeyboard(holder)),
            UiEvent::WidgetUncapturesKeyboard(other),
        ).widget_capturing_keyboard is None,
        updated(
            updated(state, UiEvent::WidgetCapturesMouse(holder)),
            UiEvent::WidgetCapturesMouse(other),
        ).widget_capturing_mouse == Some(other),
        updated(
            updated(state, UiEvent::WidgetCapturesMouse(holder)),
            UiEvent::WidgetUncapturesMouse(other),
        ).widget_capturing_mouse is None,
{
}

/// A key that is no modifier key changes nothing, neither when it goes down
/// nor when it comes up.
pub proof fn lemma_other_keys_leave_state_unchanged(state: InputStateView, key: Key)
    requires
        modifier_of_code(key_code(key)) is None,
    ensures
        updated(state, UiEvent::Raw(Input::Press(Button::Keyboard(key)))) == state,
        updated(state, UiEvent::Raw(Input::Release(Button::Keyboard(key)))) == state,
{
}

/// The two keys of a pair stand for one modifier: when one of them goes down
/// and then either of them comes up, the modifier is no longer held, and the
/// other modifiers are as they were before.
pub proof fn lemma_left_and_right_keys_share_a_modifier(
    state: InputStateView,
    pressed: Key,
    released: Key,
)
    requires
        modifier_of_code(key_code(pressed)) is Some,
        modifier_of_code(key_code(pressed)) == modifier_of_code(key_code(released)),
    ensures
        ({
            let bits = modifier_of_code(key_code(pressed))->0;
            let down = updated(state, UiEvent::Raw(Input::Press(Button::Keyboard(pressed))));
            let up = updated(down, UiEvent::Raw(Input::Release(Button::Keyboard(released))));
            &&& down.modifiers & bits == bits
            &&& up.modifiers & bits == 0
            &&& up.modifiers == state.modifiers & !bits
        }),
{
    let bits = modifier_of_code(key_code(pressed))->0;
    let held = state.modifiers;
    assert((held | bits) & bits == bits) by (bit_vector);
    assert(((held | bits) & !bits) & bits == 0) by (bit_vector);
    assert((held | bits) & !bits == held & !bits) by (bit_vector);
}

} // verus!
