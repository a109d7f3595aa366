//! Core logic of a network-attached status device.
//!
//! The device joins an existing wireless network, exposes a small HTTP
//! control surface over a shared `DeviceState`, and mirrors that state on an
//! attached display.  This crate holds the verified core: the shared state
//! and its transition functions, the request handlers of the control
//! surface, the network bring-up state machine, and the change-detecting
//! display renderer.  The surrounding process (server runtime, radio driver,
//! display bus) feeds these functions plain values and performs the I/O.

pub mod connect;
pub mod json;
pub mod render;
pub mod state;
pub mod surface;
pub mod text;
