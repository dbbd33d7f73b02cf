//! Mouse button identities, as the `input` crate numbers them.

use input::MouseButton;
use vstd::prelude::*;

verus! {

/// The max total number of buttons on a mouse.
pub const NUM_MOUSE_BUTTONS: usize = 9;

#[verifier::external_type_specification]
#[verifier::external_body]
pub struct ExMouseButton(MouseButton);

/// The dense identity of a mouse button: the number that `u32::from` gives it.
pub uninterp spec fn button_index(button: MouseButton) -> nat;

/// Calls `u32::from` on a button of the `input` crate. That conversion matches on
/// the nine variants and gives `Unknown` 0, `Left` 1, up to `Button8` 8, so the
/// number is below `NUM_MOUSE_BUTTONS`; the contract names it `button_index` and
/// states that bound.
#[verifier::external_body]
pub(crate) fn button_idx(button: MouseButton) -> (idx: usize)
    ensures
        idx == button_index(button),
        idx < NUM_MOUSE_BUTTONS,
{
    u32::from(button) as usize
}

/// The button that `MouseButton::from` makes of a number.
pub uninterp spec fn button_of_index(idx: nat) -> MouseButton;

/// Calls `MouseButton::from` on a number. That conversion maps 0 to 8 onto the
/// nine variants in the order in which `u32::from` numbers them; the contract
/// names the button `button_of_index` and states that, for a number below
/// `NUM_MOUSE_BUTTONS`, the button that comes back has that number as its identity.
#[verifier::external_body]
pub(crate) fn idx_to_button(idx: usize) -> (button: MouseButton)
    requires
        idx < NUM_MOUSE_BUTTONS,
    ensures
        button == button_of_index(idx as nat),
        button_index(button) == idx,
{
    MouseButton::from(idx as u32)
}

} // verus!
