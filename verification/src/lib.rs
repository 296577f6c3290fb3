//! Verified core of a USB HID boot-keyboard firmware: the 8-byte boot report
//! encoder, the HID class protocol engine (descriptor assembly, control-request
//! routing, interrupt-endpoint flow control), and the output adapter that
//! accumulates pressed keys into reports.
//!
//! Hardware access (the USB bus, endpoints, serial debug output) is out of
//! scope here: the engine is a state machine over plain values, and an
//! embedding drives it by performing the hardware actions it decides on and
//! feeding their outcomes back in.

pub mod hid;
pub mod keycodes;
pub mod report;
pub mod usbout;
