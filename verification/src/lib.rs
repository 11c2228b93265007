//! Host-side driver for the Tomu `usb_simple` firmware.
//!
//! The firmware exposes two LEDs that are set through a single vendor
//! control transfer. This library holds the driver's logic: the LED
//! encoding, the device-selection rule, the exact shape of the control
//! transfer, and the error taxonomy. The USB transport itself (device
//! enumeration, opening, and issuing transfers) is left to the caller,
//! who feeds its outcomes to the functions here as plain values.

pub mod colour;
pub mod driver;
pub mod error;
pub mod usb;

pub use colour::Colour;
pub use driver::TomuUsbSimple;
pub use error::Error;
