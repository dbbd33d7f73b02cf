//! Keyboard keys and the set of modifier keys that are held down.
//!
//! Keys and modifier sets are those of the `input` crate. A key is read through
//! its code, a modifier set through its bits.

use input::keyboard::ModifierKey;
use input::Key;
use vstd::prelude::*;

verus! {

#[verifier::external_type_specification]
#[verifier::external_body]
pub struct ExKey(Key);

#[verifier::external_type_specification]
#[verifier::external_body]
pub struct ExModifierKey(ModifierKey);

/// Code of the left Ctrl key.
pub const LCTRL_CODE: u32 = 0x4000_00E0;

/// Code of the left Shift key.
pub const LSHIFT_CODE: u32 = 0x4000_00E1;

/// Code of the left Alt key.
pub const LALT_CODE: u32 = 0x4000_00E2;

/// Code of the left Gui key.
pub const LGUI_CODE: u32 = 0x4000_00E3;

/// Code of the right Ctrl key.
pub const RCTRL_CODE: u32 = 0x4000_00E4;

/// Code of the right Shift key.
pub const RSHIFT_CODE: u32 = 0x4000_00E5;

/// Code of the right Alt key.
pub const RALT_CODE: u32 = 0x4000_00E6;

/// Code of the right Gui key.
pub const RGUI_CODE: u32 = 0x4000_00E7;

/// The bit that stands for Ctrl in a modifier set.
pub const CTRL_BITS: u8 = 0b0001;

/// The bit that stands for Shift in a modifier set.
pub const SHIFT_BITS: u8 = 0b0010;

/// The bit that stands for Alt in a modifier set.
pub const ALT_BITS: u8 = 0b0100;

/// The bit that stands for Gui in a modifier set.
pub const GUI_BITS: u8 = 0b1000;

/// The code of a key: the number that `u32::from` gives it.
pub uninterp spec fn key_code(key: Key) -> u32;

/// The bits of a modifier set: what `ModifierKey::bits` returns for it.
pub uninterp spec fn modifier_bits(modifiers: ModifierKey) -> u8;

/// Calls `u32::from` on a key of the `input` crate, which casts the key to its
/// discriminant. The contract names that number `key_code`.
#[verifier::external_body]
pub(crate) fn key_to_code(key: Key) -> (code: u32)
    ensures
        code == key_code(key),
{
    u32::from(key)
}

/// Hands out the constant `ModifierKey::NO_MODIFIER`, declared with no bit set.
#[verifier::external_body]
pub(crate) fn no_modifier() -> (modifiers: ModifierKey)
    ensures
        modifier_bits(modifiers) == 0,
{
    ModifierKey::NO_MODIFIER
}

/// Hands out the constant `ModifierKey::CTRL`, declared as the lowest bit.
#[verifier::external_body]
pub(crate) fn ctrl() -> (modifier: ModifierKey)
    ensures
        modifier_bits(modifier) == CTRL_BITS,
{
    ModifierKey::CTRL
}

/// Hands out the constant `ModifierKey::SHIFT`, declared as the second bit.
#[verifier::external_body]
pub(crate) fn shift() -> (modifier: ModifierKey)
    ensures
        modifier_bits(modifier) == SHIFT_BITS,
{
    ModifierKey::SHIFT
}

/// Hands out the constant `ModifierKey::ALT`, declared as the third bit.
#[verifier::external_body]
pub(crate) fn alt() -> (modifier: ModifierKey)
    ensures
        modifier_bits(modifier) == ALT_BITS,
{
    ModifierKey::ALT
}

/// Hands out the constant `ModifierKey::GUI`, declared as the fourth bit.
#[verifier::external_body]
pub(crate) fn gui() -> (modifier: ModifierKey)
    ensures
        modifier_bits(modifier) == GUI_BITS,
{
    ModifierKey::GUI
}

/// Calls `ModifierKey::insert`, which ors the bits of `other` into the set.
#[verifier::external_body]
pub(crate) fn insert_modifier(modifiers: &mut ModifierKey, other: ModifierKey)
    ensures
        modifier_bits(*final(modifiers)) == modifier_bits(*old(modifiers)) | modifier_bits(other),
{
    modifiers.insert(other)
}

/// Calls `ModifierKey::remove`, which clears the bits of `other` in the set.
#[verifier::external_body]
pub(crate) fn remove_modifier(modifiers: &mut ModifierKey, other: ModifierKey)
    ensures
        modifier_bits(*final(modifiers)) == modifier_bits(*old(modifiers)) & !modifier_bits(other),
{
    modifiers.remove(other)
}

/// The modifier bit that a key code stands for, if it is the code of a modifier
/// key. The left and the right key of a pair stand for the same bit.
pub open spec fn modifier_of_code(code: u32) -> Option<u8> {
    if code == LCTRL_CODE || code == RCTRL_CODE {
        Some(CTRL_BITS)
    } else if code == LSHIFT_CODE || code == RSHIFT_CODE {
        Some(SHIFT_BITS)
    } else if code == LALT_CODE || code == RALT_CODE {
        Some(ALT_BITS)
    } else if code == LGUI_CODE || code == RGUI_CODE {
        Some(GUI_BITS)
    } else {
        None
    }
}

/// The modifier that a key stands for, if it is a modifier key.
pub fn get_modifier(key: Key) -> (modifier: Option<ModifierKey>)
    ensures
        match modifier_of_code(key_code(key)) {
            Some(bits) => modifier is Some && modifier_bits(modifier->0) == bits,
            None => modifier is None,
        },
{
    let code = key_to_code(key);
    if code == LCTRL_CODE || code == RCTRL_CODE {
        Some(ctrl())
    } else if code == LSHIFT_CODE || code == RSHIFT_CODE {
        Some(shift())
    } else if code == LALT_CODE || code == RALT_CODE {
        Some(alt())
    } else if code == LGUI_CODE || code == RGUI_CODE {
        Some(gui())
    } else {
        None
    }
}

} // verus!
