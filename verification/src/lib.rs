//! Multiplexing of a physical touchscreen and a virtual contact onto one
//! virtual multitouch (type B) device.
pub mod bounds;
pub mod codes;
pub mod device;
pub mod external;
pub mod human;
pub mod multiplexer;
pub mod text;
pub mod time;
pub mod touch;
pub mod uinput;

pub use device::{AxisRange, OptionalAxisRange, TouchDevice, TouchDeviceError};

pub use human::HumanProfile;

pub use multiplexer::{DisplaySize, Point, TouchMultiplexerBuilder};

pub use touch::{TouchAction, TouchContext, TouchProfile};

pub use uinput::{OutputSlot, UInputError};
