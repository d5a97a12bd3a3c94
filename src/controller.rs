//! The controller bitmask: one bit per logical button, with one mapping table
//! shared by presses and releases.
use vstd::prelude::*;

verus! {

/// A logical controller button; `Other` stands for any button without a bit.
#[derive(Debug, Clone, Copy, PartialEq, Eq, Structural)]
pub enum Button {
    A,
    B,
    X,
    Y,
    DPadLeft,
    DPadRight,
    DPadUp,
    DPadDown,
    Other,
}

/// The bit of each button in the controller state.
pub open spec fn mask_of(b: Button) -> u8 {
    match b {
        Button::A => 0b00000001u8,
        Button::B => 0b00000010u8,
        Button::X => 0b00000100u8,
        Button::Y => 0b00001000u8,
        Button::DPadLeft => 0b00010000u8,
        Button::DPadRight => 0b00100000u8,
        Button::DPadUp => 0b01000000u8,
        Button::DPadDown => 0b10000000u8,
        Button::Other => 0u8,
    }
}

/// The bit of `b` in the controller state.
pub fn button_mask(b: Button) -> (r: u8)
    ensures
        r == mask_of(b),
{
    match b {
        Button::A => 0b00000001,
        Button::B => 0b00000010,
        Button::X => 0b00000100,
        Button::Y => 0b00001000,
        Button::DPadLeft => 0b00010000,
        Button::DPadRight => 0b00100000,
        Button::DPadUp => 0b01000000,
        Button::DPadDown => 0b10000000,
        Button::Other => 0,
    }
}

/// The controller state after `b` is pressed: its bit is set, the rest kept.
pub fn press(state: u8, b: Button) -> (r: u8)
    ensures
        r == state | mask_of(b),
{
    state | button_mask(b)
}

/// The controller state after `b` is released: its bit is cleared, the rest
/// kept.
pub fn release(state: u8, b: Button) -> (r: u8)
    ensures
        r == state & !mask_of(b),
{
    state & !button_mask(b)
}

/// Presses and releases use one table: releasing a button right after
/// pressing it clears exactly that button's bit, and a press or release of
/// one button never touches the bit of another.
pub proof fn lemma_press_release_symmetric(state: u8, b: Button, other: Button)
    requires
        other != b,
    ensures
        (state | mask_of(b)) & !mask_of(b) == state & !mask_of(b),
        (state | mask_of(b)) & mask_of(other) == state & mask_of(other),
        (state & !mask_of(b)) & mask_of(other) == state & mask_of(other),
{
    let m = mask_of(b);
    let o = mask_of(other);
    assert(m != o);
    assert(m & o == 0u8) by (bit_vector)
        requires
            m == 0 || m == 1 || m == 2 || m == 4 || m == 8 || m == 16 || m == 32 || m == 64
                || m == 128,
            o == 0 || o == 1 || o == 2 || o == 4 || o == 8 || o == 16 || o == 32 || o == 64
                || o == 128,
            m != o,
    ;
    assert((state | m) & !m == state & !m) by (bit_vector);
    assert((state | m) & o == state & o) by (bit_vector)
        requires m & o == 0u8;
    assert((state & !m) & o == state & o) by (bit_vector)
        requires m & o == 0u8;
}

} // verus!
