//! The register protocol layer: three report encodings sharing one device.
//!
//! A single-register report (ID 0x42) writes or reads one byte-wide
//! register addressed by a (bank, address) pair; a user-register report
//! (ID 0x43) reads with the same two-step pattern under a distinct ID; and
//! the burst report (ID 0x41) streams a large payload in fixed-size chunks
//! through repeated `get_feature` calls.

use vstd::prelude::*;

use crate::device::{HidDevice, IoError};

verus! {

/// Report ID of the single-register read/write encoding.
pub const REPORT_SINGLE: u8 = 0x42;

/// Report ID of the user-register read encoding.
pub const REPORT_USER: u8 = 0x43;

/// Report ID of the burst-read encoding.
pub const REPORT_BURST: u8 = 0x41;

/// Flag OR-ed into the bank byte to request a read instead of a write.
pub const READ_FLAG: u8 = 0x10;

/// A failure during steady-state register or burst I/O.
///
/// `Io` carries an OS-level rejection unchanged. `ZeroLengthReport` is a
/// protocol ambiguity: a burst chunk arrived with no payload byte, so the
/// transfer could never make progress; the engine fails closed rather than
/// stall or produce a short frame.
#[derive(Clone, Copy, Debug, PartialEq, Eq, Structural)]
pub enum TransferError {
    Io(IoError),
    ZeroLengthReport,
}

/// The four bytes of a single-register write report:
/// `[REPORT_SINGLE, addr, bank, value]`.
pub fn encode_single_write(bank: u8, addr: u8, value: u8) -> (b: Vec<u8>)
    ensures
        b@ == seq![REPORT_SINGLE, addr, bank, value],
{
    let mut b: Vec<u8> = Vec::new();
    b.push(REPORT_SINGLE);
    b.push(addr);
    b.push(bank);
    b.push(value);
    proof {
        assert(b@ =~= seq![REPORT_SINGLE, addr, bank, value]);
    }
    b
}

/// The four bytes that arm a two-step register read under the given report
/// ID: `[report_id, addr, bank | READ_FLAG, 0]`.
pub fn encode_read_request(report_id: u8, bank: u8, addr: u8) -> (b: Vec<u8>)
    ensures
        b@ == seq![report_id, addr, (bank | READ_FLAG) as u8, 0u8],
{
    let mut b: Vec<u8> = Vec::new();
    b.push(report_id);
    b.push(addr);
    b.push(bank | READ_FLAG);
    b.push(0u8);
    proof {
        assert(b@ =~= seq![report_id, addr, (bank | READ_FLAG) as u8, 0u8]);
    }
    b
}

/// Write one register through the single-register report.
///
/// The device decides acceptance; any OS rejection propagates unchanged.
pub fn write_reg<D: HidDevice>(dev: &mut D, bank: u8, addr: u8, value: u8) -> (r: Result<
    (),
    IoError,
>) {
    let buf = encode_single_write(bank, addr, value);
    dev.set_feature(&buf)
}

/// Arm a read under `report_id`, then fetch a 4-byte report and hand back
/// its byte at offset 3, where the two-step protocol places the value.
fn read_reg_via<D: HidDevice>(dev: &mut D, report_id: u8, bank: u8, addr: u8) -> (r: Result<
    u8,
    IoError,
>) {
    let req = encode_read_request(report_id, bank, addr);
    match dev.set_feature(&req) {
        Ok(()) => (),
        Err(e) => {
            return Err(e);
        },
    }
    let mut buf: Vec<u8> = Vec::new();
    buf.push(report_id);
    buf.push(0u8);
    buf.push(0u8);
    buf.push(0u8);
    match dev.get_feature(&mut buf) {
        Ok(_) => Ok(buf[3]),
        Err(e) => Err(e),
    }
}

/// Read one register through the single-register report (ID 0x42).
pub fn read_reg<D: HidDevice>(dev: &mut D, bank: u8, addr: u8) -> (r: Result<u8, IoError>) {
    read_reg_via(dev, REPORT_SINGLE, bank, addr)
}

/// Read one user register through the user report (ID 0x43).
pub fn read_user_reg<D: HidDevice>(dev: &mut D, bank: u8, addr: u8) -> (r: Result<u8, IoError>) {
    read_reg_via(dev, REPORT_USER, bank, addr)
}

/// The `(1 + report_len)`-byte exchange buffer of a burst chunk fetch:
/// the burst report ID followed by room for `report_len` payload bytes.
pub fn encode_burst_request(report_len: usize) -> (b: Vec<u8>)
    requires
        report_len < usize::MAX,
    ensures
        b@.len() == 1 + report_len,
        b@[0] == REPORT_BURST,
{
    let mut b: Vec<u8> = Vec::new();
    b.push(REPORT_BURST);
    let mut k: usize = 0;
    while k < report_len
        invariant
            k <= report_len,
            b@.len() == 1 + k,
            b@[0] == REPORT_BURST,
        decreases report_len - k,
    {
        b.push(0u8);
        k = k + 1;
    }
    b
}

/// Accumulate exactly `total_bytes` payload bytes through repeated
/// `get_feature` calls on the burst report.
///
/// Each fetched report contributes `min(remaining, populated - 1)` payload
/// bytes (the byte at offset 0 is the report ID, payload starts at offset
/// 1). A read of zero bytes always succeeds, without touching the device.
/// A report populated with fewer than two bytes carries no payload and
/// could never advance the transfer: the read fails closed with
/// `ZeroLengthReport` instead of stalling or underflowing.
pub fn burst_read<D: HidDevice>(dev: &mut D, total_bytes: usize, report_len: usize) -> (r: Result<
    Vec<u8>,
    TransferError,
>)
    requires
        1 <= report_len < usize::MAX,
    ensures
        r is Ok ==> r->Ok_0@.len() == total_bytes,
        total_bytes == 0 ==> r is Ok && *final(dev) == *old(dev),
{
    let mut result: Vec<u8> = Vec::new();
    if total_bytes == 0 {
        return Ok(result);
    }
    let buf_size: usize = 1 + report_len;
    let mut buf = encode_burst_request(report_len);

    while result.len() < total_bytes
        invariant
            buf@.len() == buf_size,
            buf_size == 1 + report_len,
            1 <= report_len,
            result@.len() <= total_bytes,
        decreases total_bytes - result@.len(),
    {
        buf.set(0, REPORT_BURST);
        let n = match dev.get_feature(&mut buf) {
            Ok(n) => n,
            Err(e) => {
                return Err(TransferError::Io(e));
            },
        };
        let payload_end = if n < buf_size {
            n
        } else {
            buf_size
        };
        if payload_end <= 1 {
            // No payload byte arrived; the transfer can never finish.
            return Err(TransferError::ZeroLengthReport);
        }
        let remaining = total_bytes - result.len();
        let take = if remaining < payload_end - 1 {
            remaining
        } else {
            payload_end - 1
        };
        let ghost old_len = result@.len();
        let mut j: usize = 0;
        while j < take
            invariant
                j <= take,
                take < buf@.len(),
                result@.len() == old_len + j,
                old_len + take <= total_bytes,
            decreases take - j,
        {
            result.push(buf[1 + j]);
            j = j + 1;
        }
    }
    Ok(result)
}

} // verus!
