//! Mirrors a region of a display onto the per-key RGB grid of a keyboard.
//!
//! The crate holds the decisions of the capture pipeline: the colour
//! transform, the brightness guard, the device geometry table, the parsing of
//! device reports, the settings store and the per-iteration state machine of
//! the capture loop. Everything that touches a screen, a device or a file is
//! left to the caller, which hands plain values in and takes plain values back.

pub mod capture;
pub mod color;
pub mod config;
pub mod device;
pub mod display;
pub mod downscale;
pub mod frame;
pub mod settings;
pub mod text;
pub mod update;
