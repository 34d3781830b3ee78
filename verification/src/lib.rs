//! Bridges a flex-sensor game-controller accessory ("Ring-Con") to an
//! OSC-over-UDP telemetry stream.
//!
//! The library holds the logic of the bridge: the message types exchanged
//! between the controlling process and the hardware worker, the telemetry
//! encoder that turns raw sensor bytes into wire packets, the device
//! initialization handshake and frame handling of the worker, and the
//! supervisor's restart decisions. Process plumbing (IPC, UDP sockets, the
//! HID driver, the user interface) lives outside, in the binary built around
//! this crate.

pub mod encoder;
pub mod engine;
pub mod messages;
pub mod protocol;
pub mod ratio;
pub mod resources;
pub mod supervisor;
