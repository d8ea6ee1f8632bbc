//! The key-pattern persistence and HID control core of a one-button USB
//! keyboard.
//!
//! The device types a stored 7-byte key pattern (a HID modifier byte and
//! six key-codes) whenever its single button is pressed, and an empty
//! report when it is released. The pattern is reprogrammable by the host
//! over a vendor HID interface and survives power cycles in the last page
//! of on-chip flash, framed with a CRC-16/AUG-CCITT checksum.
//!
//! This crate holds the verified logic: the checksum and its framing laws
//! (`crc`), the pattern codec (`pattern`), the report shapes (`report`),
//! the CRC-guarded settings store (`store`), the tick logic of the input
//! sampler (`sampler`), the control-channel decisions (`control`), the HID
//! report descriptors (`descriptor`) and the configuration constants
//! (`config`). The hardware shell around it — GPIO, the USB peripheral,
//! the flash controller and the interrupt scheduling — lives outside and
//! feeds this logic plain values.

pub mod config;
pub mod control;
pub mod crc;
pub mod descriptor;
pub mod pattern;
pub mod report;
pub mod sampler;
pub mod store;
