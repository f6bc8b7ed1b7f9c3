//! Type tags identifying the payload of an envelope.

use vstd::prelude::*;

verus! {

pub const TYPE_CLOCK_STATE: u8 = 0x01;
pub const TYPE_CALCULATOR_STATE: u8 = 0x02;
pub const TYPE_SETTINGS_STATE: u8 = 0x03;
pub const TYPE_BUTTON_PRESS: u8 = 0x10;
pub const TYPE_TEXT_INPUT: u8 = 0x11;
pub const TYPE_KEY_PRESS: u8 = 0x12;
pub const TYPE_FOCUS_CHANGE: u8 = 0x13;

} // verus!
