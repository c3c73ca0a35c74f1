//! Shared logic of a two-chip gamepad bridge: the gamepad descriptor
//! encoding, the serial link protocol between the chips, and the USB HID
//! device engine that reports the gamepad to a host.
//!
//! The controller board scans its switch matrix (`controller`), keeps the
//! last frame as a four-byte descriptor (`fightstick`) and answers the
//! bridge's requests through a bounded transmit queue (`serial`). The bridge
//! board runs the handshake and reassembles incoming frames (`bridge`), and
//! answers the host's control requests and pushes reports (`usb`,
//! `descriptors`). Both ends share the command codes of the link (`usart`).

pub mod bridge;
pub mod controller;
pub mod descriptors;
pub mod fightstick;
pub mod serial;
pub mod usart;
pub mod usb;
