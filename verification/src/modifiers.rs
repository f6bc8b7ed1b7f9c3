//! Modifier key flags for key press events.

use vstd::prelude::*;

verus! {

pub const SHIFT: u8 = 1;
pub const CTRL: u8 = 2;
pub const ALT: u8 = 4;

} // verus!
