//! The key codes of the HID boot-keyboard protocol, as plain `u8` values.
//!
//! A logical key event is represented by its one-byte USB usage code: `0x00`
//! means "no key", `0x01`..`0x03` are the three device-level error sentinels,
//! `0xe0`..`0xe7` are the eight modifier keys (one bit each in the report's
//! modifier byte), and everything else is an ordinary key that occupies one of
//! the six key slots of a boot report.

use vstd::prelude::*;

verus! {

/// The "no key in this slot" code; pressing it is a no-op.
pub const KC_NO: u8 = 0x00;

/// Error sentinel: more keys held than a boot report can carry.
pub const KC_ERROR_ROLL_OVER: u8 = 0x01;

/// Error sentinel: the keyboard's power-on self test failed.
pub const KC_POST_FAIL: u8 = 0x02;

/// Error sentinel: undefined device-level error.
pub const KC_ERROR_UNDEFINED: u8 = 0x03;

/// The lowest modifier key code (left control).
pub const KC_FIRST_MODIFIER: u8 = 0xe0;

/// The highest modifier key code (right GUI).
pub const KC_LAST_MODIFIER: u8 = 0xe7;

/// One of the three error sentinels that force-fill all six key slots.
pub open spec fn is_error_code(k: u8) -> bool {
    k == KC_ERROR_ROLL_OVER || k == KC_POST_FAIL || k == KC_ERROR_UNDEFINED
}

/// A modifier key, reported as a bit in the report's modifier byte.
pub open spec fn is_modifier_code(k: u8) -> bool {
    KC_FIRST_MODIFIER <= k && k <= KC_LAST_MODIFIER
}

/// An ordinary key: reported in one of the six key slots.
pub open spec fn is_normal_code(k: u8) -> bool {
    k != KC_NO && !is_error_code(k) && !is_modifier_code(k)
}

/// The bit a modifier key contributes to the report's modifier byte.
pub open spec fn spec_modifier_bit(k: u8) -> u8 {
    1u8 << ((k - KC_FIRST_MODIFIER) as u8)
}

/// Executable form of `spec_modifier_bit`.
pub fn modifier_bit(k: u8) -> (r: u8)
    requires
        is_modifier_code(k),
    ensures
        r == spec_modifier_bit(k),
{
    1u8 << (k - KC_FIRST_MODIFIER)
}

/// Executable form of `is_error_code`.
pub fn is_error(k: u8) -> (r: bool)
    ensures
        r == is_error_code(k),
{
    k == KC_ERROR_ROLL_OVER || k == KC_POST_FAIL || k == KC_ERROR_UNDEFINED
}

/// Executable form of `is_modifier_code`.
pub fn is_modifier(k: u8) -> (r: bool)
    ensures
        r == is_modifier_code(k),
{
    KC_FIRST_MODIFIER <= k && k <= KC_LAST_MODIFIER
}

} // verus!
