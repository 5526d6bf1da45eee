//! The report I/O capability: synchronous feature-report exchange with an
//! open HID device handle.
//!
//! The protocol layers above are verified against this trait alone; the
//! platform backends (hidraw ioctls on Linux, HidD calls on Windows) are
//! interchangeable implementations supplied by the embedding program.

use vstd::prelude::*;

verus! {

/// An OS-level rejection of a feature-report exchange, carried unchanged to
/// the caller. The code is whatever the platform backend chose to record
/// (an errno, a Win32 status); this crate never inspects it.
#[derive(Clone, Copy, Debug, PartialEq, Eq, Structural)]
pub struct IoError {
    pub code: i32,
}

/// Synchronous send/receive of fixed-format feature reports.
///
/// `set_feature` sends `buf` whole; `buf[0]` is the report ID and the rest
/// is payload. `get_feature` expects the caller to pre-fill `buf[0]` with
/// the desired report ID; the device fills the buffer in place and the call
/// returns how many bytes were populated (including the ID byte).
///
/// Nothing is promised about the bytes a device returns: every caller in
/// this crate is verified to behave correctly whatever comes back. An
/// implementation must only leave the buffer length unchanged; failures
/// surface as `IoError` and are never retried at this layer.
pub trait HidDevice {
    fn set_feature(&mut self, buf: &Vec<u8>) -> (r: Result<(), IoError>);

    fn get_feature(&mut self, buf: &mut Vec<u8>) -> (r: Result<usize, IoError>)
        ensures
            final(buf)@.len() == old(buf)@.len(),
    ;
}

} // verus!
