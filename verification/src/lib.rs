//! Verified core of a touchpad inspection tool.
//!
//! Two independent decoder families are implemented and verified here:
//! a register-oriented capacitive-heatmap protocol engine (chip
//! identification, matrix-dimension discovery, frame acquisition and a
//! calibration drift detector) and a multitouch contact decoder (an
//! incremental event-slot state machine plus a whole-report extractor).
//! All device I/O goes through the [`device::HidDevice`] capability trait;
//! the platform backends that implement it live outside this crate.

pub mod chips;
pub mod descriptor;
pub mod detector;
pub mod device;
pub mod frame;
pub mod input;
pub mod multitouch;
pub mod protocol;
pub mod report;
