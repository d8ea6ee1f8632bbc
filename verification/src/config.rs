//! Compile-time configuration of the device.

use vstd::prelude::*;

verus! {

/// Frequency of the external crystal, in hertz.
pub const XTAL_FREQ: u32 = 8_000_000;

/// Active level of the optional USB D+ pull-up pin. `None` means the board
/// has a fixed pull-up resistor; the firmware then forces a brief bus reset
/// at boot instead of switching a pin.
pub const USB_PULLUP_ACTVE_LEVEL: Option<bool> = None;

/// USB vendor id the device enumerates with.
pub const USB_VID: u16 = 0x16c0;

/// USB product id the device enumerates with.
pub const USB_PID: u16 = 0x314f;

/// Poll interval of both HID interfaces, and the period of the sampling
/// timer, in milliseconds.
pub const HID_I2C_POLL_INTERVAL_MS: u8 = 50;

} // verus!
