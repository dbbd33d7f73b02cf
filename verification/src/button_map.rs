//! The table of mouse buttons that are currently held down.

use crate::mouse::{button_idx, button_index, button_of_index, idx_to_button, NUM_MOUSE_BUTTONS};
use crate::point::{ButtonDownPosition, Point};
use input::MouseButton;
use vstd::prelude::*;

verus! {

/// Stores the state of all mouse buttons. If the mouse button is down,
/// it stores the position of the mouse when the button was pressed
#[derive(Copy, Clone, Debug, PartialEq)]
pub struct ButtonMap {
    button_states: [ButtonDownPosition; NUM_MOUSE_BUTTONS],
}

/// The slots of a table in which every button is up.
pub open spec fn all_up() -> Seq<ButtonDownPosition> {
    Seq::new(NUM_MOUSE_BUTTONS as nat, |i: int| None::<Point>)
}

/// The lowest index at or after `from` whose slot holds a position, if any.
pub open spec fn first_pressed_from(slots: Seq<ButtonDownPosition>, from: int) -> Option<int>
    decreases slots.len() - from,
{
    if from < 0 || from >= slots.len() {
        None
    } else if slots[from] is Some {
        Some(from)
    } else {
        first_pressed_from(slots, from + 1)
    }
}

/// What `first_pressed_from` finds is the first occupied slot from `from` on:
/// it holds a position and every slot between `from` and it is empty; where it
/// finds nothing, every slot from `from` on is empty.
pub proof fn lemma_first_pressed_from(slots: Seq<ButtonDownPosition>, from: int)
    requires
        0 <= from,
    ensures
        match first_pressed_from(slots, from) {
            Some(i) => {
                &&& from <= i < slots.len()
                &&& slots[i] is Some
                &&& forall|j: int| from <= j < i ==> slots[j] is None
            },
            None => forall|j: int| from <= j < slots.len() ==> slots[j] is None,
        },
    decreases slots.len() - from,
{
    if from < slots.len() && slots[from] is None {
        lemma_first_pressed_from(slots, from + 1);
    }
}

impl View for ButtonMap {
    type V = Seq<ButtonDownPosition>;

    /// One slot per button, in ascending order of the buttons' identities.
    closed spec fn view(&self) -> Seq<ButtonDownPosition> {
        self.button_states@
    }
}

impl ButtonMap {
    /// The table always has one slot for each of the `NUM_MOUSE_BUTTONS` identities.
    pub proof fn lemma_len(self)
        ensures
            self@.len() == NUM_MOUSE_BUTTONS,
    {
    }

    /// The state that the table records for `button`.
    pub open spec fn spec_get(self, button: MouseButton) -> ButtonDownPosition {
        self@[button_index(button) as int]
    }

    /// The pressed button of lowest identity with the position it went down at.
    pub open spec fn spec_pressed_button(self) -> Option<(MouseButton, Point)> {
        match first_pressed_from(self@, 0) {
            Some(i) => Some((button_of_index(i as nat), self@[i]->0)),
            None => None,
        }
    }

    /// Returns a new button map with all states set to `None`
    pub fn new() -> (map: ButtonMap)
        ensures
            map@ == all_up(),
            map.spec_pressed_button() is None,
            forall|button: MouseButton|
                button_index(button) < NUM_MOUSE_BUTTONS ==> (#[trigger] map.spec_get(
                    button,
                )) is None,
    {
        let map = ButtonMap { button_states: [None;NUM_MOUSE_BUTTONS] };
        proof {
            assert(map@ =~= all_up());
            lemma_first_pressed_from(map@, 0);
        }
        map
    }

    /// Sets the state of a specific `MouseButton`
    pub fn set(&mut self, button: MouseButton, point: ButtonDownPosition)
        ensures
            button_index(button) < NUM_MOUSE_BUTTONS,
            final(self)@ == old(self)@.update(button_index(button) as int, point),
            final(self).spec_get(button) == point,
    {
        let idx = button_idx(button);
        self.button_states[idx] = point;
    }

    /// Returns the state of a mouse button
    pub fn get(&self, button: MouseButton) -> (state: ButtonDownPosition)
        ensures
            button_index(button) < NUM_MOUSE_BUTTONS,
            state == self.spec_get(button),
    {
        self.button_states[button_idx(button)]
    }

    /// Returns the current state of a mouse button, leaving `None` in its place
    pub fn take(&mut self, button: MouseButton) -> (state: ButtonDownPosition)
        ensures
            button_index(button) < NUM_MOUSE_BUTTONS,
            state == old(self).spec_get(button),
            final(self)@ == old(self)@.update(button_index(button) as int, None),
            final(self).spec_get(button) is None,
    {
        let idx = button_idx(button);
        let state = self.button_states[idx];
        self.button_states[idx] = None;
        state
    }

    /// If any mouse buttons are currently pressed, will return a tuple containing
    /// both the `MouseButton` that is pressed and the `Point` describing the location of the
    /// mouse when it was pressed.
    pub fn pressed_button(&self) -> (pressed: Option<(MouseButton, Point)>)
        ensures
            pressed == self.spec_pressed_button(),
            match pressed {
                Some((button, point)) => {
                    &&& button_index(button) < NUM_MOUSE_BUTTONS
                    &&& self.spec_get(button) == Some(point)
                    &&& forall|other: MouseButton|
                        button_index(other) < button_index(button) ==> (#[trigger] self.spec_get(
                            other,
                        )) is None
                },
                None => forall|other: MouseButton|
                    button_index(other) < NUM_MOUSE_BUTTONS ==> (#[trigger] self.spec_get(
                        other,
                    )) is None,
            },
    {
        let mut idx: usize = 0;
        while idx < NUM_MOUSE_BUTTONS
            invariant
                idx <= NUM_MOUSE_BUTTONS,
                first_pressed_from(self@, 0) == first_pressed_from(self@, idx as int),
            decreases NUM_MOUSE_BUTTONS - idx,
        {
            if let Some(point) = self.button_states[idx] {
                proof {
                    lemma_first_pressed_from(self@, 0);
                }
                return Some((idx_to_button(idx), point));
            }
            idx += 1;
        }
        proof {
            lemma_first_pressed_from(self@, 0);
        }
        None
    }
}

} // verus!
