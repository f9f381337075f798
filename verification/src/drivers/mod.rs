//! What the drivers compute before they touch a device.

pub mod timer;
pub mod uart;
