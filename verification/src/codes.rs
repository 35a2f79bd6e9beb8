//! Linux input event codes used by the multitouch type B protocol.
//!
//! The values are those of `linux/input-event-codes.h`.
use vstd::prelude::*;

verus! {

/// `EV_SYN`: synchronization events.
pub const EV_SYN: u16 = 0x00;

/// `EV_KEY`: keys and buttons.
pub const EV_KEY: u16 = 0x01;

/// `EV_ABS`: absolute axes.
pub const EV_ABS: u16 = 0x03;

/// `SYN_REPORT`: end of a frame.
pub const SYN_REPORT_CODE: u16 = 0;

/// `BTN_TOOL_FINGER`.
pub const BTN_TOOL_FINGER: u16 = 0x145;

/// `BTN_TOUCH`.
pub const BTN_TOUCH: u16 = 0x14a;

/// `INPUT_PROP_DIRECT`: the device is a touchscreen, not a touchpad.
pub const INPUT_PROP_DIRECT: u16 = 0x01;

/// `ABS_MT_SLOT`.
pub const ABS_MT_SLOT_CODE: u16 = 47;

/// `ABS_MT_TOUCH_MAJOR`.
pub const ABS_MT_TOUCH_MAJOR_CODE: u16 = 48;

/// `ABS_MT_WIDTH_MAJOR`.
pub const ABS_MT_WIDTH_MAJOR_CODE: u16 = 50;

/// `ABS_MT_POSITION_X`.
pub const ABS_MT_POSITION_X_CODE: u16 = 53;

/// `ABS_MT_POSITION_Y`.
pub const ABS_MT_POSITION_Y_CODE: u16 = 54;

/// `ABS_MT_TRACKING_ID`.
pub const ABS_MT_TRACKING_ID_CODE: u16 = 57;

} // verus!
