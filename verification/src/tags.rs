//! Message tags for Backend <-> UI communication.

use vstd::prelude::*;

verus! {

/// App -> UI: state update
pub const MSG_APP_STATE: u32 = 0x2000;
/// UI -> App: user input event
pub const MSG_APP_INPUT: u32 = 0x2001;
/// UI -> App: UI surface ready notification
pub const MSG_UI_READY: u32 = 0x2002;
/// App -> UI: request focus
pub const MSG_APP_FOCUS: u32 = 0x2003;
/// App -> UI: error notification
pub const MSG_APP_ERROR: u32 = 0x2004;

} // verus!
