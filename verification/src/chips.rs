//! Chip identification, matrix-dimension discovery and frame acquisition.
//!
//! Five chip variants share the register protocol but differ in their
//! part-ID constants, their dimension registers and the register sequence
//! that arms, transfers and disarms one capacitive frame.

use vstd::prelude::*;

use crate::device::{HidDevice, IoError};
use crate::protocol::{burst_read, read_reg, read_user_reg, write_reg, TransferError};

verus! {

/// One of the five supported touch-controller identities, fixed for the
/// lifetime of a device session once identified.
#[derive(Clone, Copy, Debug, PartialEq, Eq, Structural)]
pub enum ChipVariant {
    PJP274,
    PJP343,
    PJP255,
    PJP215,
    PLP239,
}

/// A fatal failure while establishing a device session: an OS-level I/O
/// rejection, a part ID that matches no supported chip, or a reported
/// matrix shape with no cells (which could never yield a frame).
#[derive(Clone, Copy, Debug, PartialEq, Eq, Structural)]
pub enum SetupError {
    Io(IoError),
    UnsupportedChip(u16),
    InvalidDimensions(usize, usize),
}

/// The documented part-ID constant of each chip variant.
pub open spec fn part_id_of(chip: ChipVariant) -> u16 {
    match chip {
        ChipVariant::PJP274 => 0x0274,
        ChipVariant::PJP343 => 0x0343,
        ChipVariant::PJP255 => 0x0255,
        ChipVariant::PJP215 => 0x0215,
        ChipVariant::PLP239 => 0x0239,
    }
}

impl ChipVariant {
    /// The chip's name, as printed on diagnostics.
    pub fn name(&self) -> (r: &'static str)
        ensures
            r@ == match *self {
                ChipVariant::PJP274 => "PJP274"@,
                ChipVariant::PJP343 => "PJP343"@,
                ChipVariant::PJP255 => "PJP255"@,
                ChipVariant::PJP215 => "PJP215"@,
                ChipVariant::PLP239 => "PLP239"@,
            },
    {
        match *self {
            ChipVariant::PJP274 => "PJP274",
            ChipVariant::PJP343 => "PJP343",
            ChipVariant::PJP255 => "PJP255",
            ChipVariant::PJP215 => "PJP215",
            ChipVariant::PLP239 => "PLP239",
        }
    }
}

/// Combine the low and high part-ID register bytes into the little-endian
/// 16-bit part ID.
pub fn combine_part_id(lo: u8, hi: u8) -> (id: u16)
    ensures
        id == lo + 256 * hi,
{
    lo as u16 + 256 * (hi as u16)
}

/// Map a 16-bit part ID to its chip variant.
///
/// Exactly the five documented constants succeed; every other value is an
/// unsupported chip and fails closed.
pub fn classify_part_id(id: u16) -> (r: Result<ChipVariant, SetupError>)
    ensures
        r is Ok <==> (exists|c: ChipVariant| part_id_of(c) == id),
        r is Ok ==> part_id_of(r->Ok_0) == id,
        r is Err ==> r->Err_0 == SetupError::UnsupportedChip(id),
{
    match id {
        0x0274 => {
            proof {
                assert(part_id_of(ChipVariant::PJP274) == id);
            }
            Ok(ChipVariant::PJP274)
        },
        0x0343 => {
            proof {
                assert(part_id_of(ChipVariant::PJP343) == id);
            }
            Ok(ChipVariant::PJP343)
        },
        0x0255 => {
            proof {
                assert(part_id_of(ChipVariant::PJP255) == id);
            }
            Ok(ChipVariant::PJP255)
        },
        0x0215 => {
            proof {
                assert(part_id_of(ChipVariant::PJP215) == id);
            }
            Ok(ChipVariant::PJP215)
        },
        0x0239 => {
            proof {
                assert(part_id_of(ChipVariant::PLP239) == id);
            }
            Ok(ChipVariant::PLP239)
        },
        _ => {
            proof {
                assert forall|c: ChipVariant| part_id_of(c) != id by {
                    match c {
                        ChipVariant::PJP274 => assert(part_id_of(c) == 0x0274),
                        ChipVariant::PJP343 => assert(part_id_of(c) == 0x0343),
                        ChipVariant::PJP255 => assert(part_id_of(c) == 0x0255),
                        ChipVariant::PJP215 => assert(part_id_of(c) == 0x0215),
                        ChipVariant::PLP239 => assert(part_id_of(c) == 0x0239),
                    }
                }
            }
            Err(SetupError::UnsupportedChip(id))
        },
    }
}

/// Read the part-ID register pair (bank 0, addresses 0x78 low and 0x79
/// high), combine little-endian and classify.
///
/// Whatever bytes the device returns, the result is exactly
/// `classify_part_id` of their combination: a supported variant, or
/// `UnsupportedChip` carrying the offending ID; I/O rejections propagate
/// as `Io`. Identification never reports a dimension failure.
pub fn identify_chip<D: HidDevice>(dev: &mut D) -> (r: Result<ChipVariant, SetupError>)
    ensures
        r is Err ==> (r->Err_0 is Io || r->Err_0 is UnsupportedChip),
{
    let lo = match read_reg(dev, 0, 0x78) {
        Ok(v) => v,
        Err(e) => {
            return Err(SetupError::Io(e));
        },
    };
    let hi = match read_reg(dev, 0, 0x79) {
        Ok(v) => v,
        Err(e) => {
            return Err(SetupError::Io(e));
        },
    };
    let part_id = combine_part_id(lo, hi);
    classify_part_id(part_id)
}

/// How a chip family turns its two dimension-register bytes into
/// `(rows, cols)`: families A and B report the counts directly, family C
/// (PLP239) stores count-minus-one in each register.
pub open spec fn dims_from_regs(chip: ChipVariant, first: u8, second: u8) -> (int, int) {
    match chip {
        ChipVariant::PLP239 => (first + 1, second + 1),
        _ => (first as int, second as int),
    }
}

/// Read the matrix shape `(rows, cols)` from the chip's dimension
/// registers.
///
/// Family A (PJP274/PJP343) reads user registers 0x6E (rows) and 0x6F
/// (cols); family B (PJP255/PJP215) reads user registers 0x5A (drives =
/// rows) and 0x59 (senses = cols); family C (PLP239) reads bank-9
/// registers 0x01 and 0x02, each stored as count-minus-one. Whatever
/// bytes arrive, the result is `dims_from_regs` of them, which bounds
/// every dimension by 256.
pub fn read_matrix_dims<D: HidDevice>(dev: &mut D, chip: ChipVariant) -> (r: Result<
    (usize, usize),
    SetupError,
>)
    ensures
        r is Ok ==> r->Ok_0.0 <= 256 && r->Ok_0.1 <= 256,
        r is Ok && chip == ChipVariant::PLP239 ==> 1 <= r->Ok_0.0 && 1 <= r->Ok_0.1,
        r is Err ==> r->Err_0 is Io,
{
    match chip {
        ChipVariant::PJP274 | ChipVariant::PJP343 => {
            let rows = match read_user_reg(dev, 0, 0x6E) {
                Ok(v) => v,
                Err(e) => {
                    return Err(SetupError::Io(e));
                },
            };
            let cols = match read_user_reg(dev, 0, 0x6F) {
                Ok(v) => v,
                Err(e) => {
                    return Err(SetupError::Io(e));
                },
            };
            Ok((rows as usize, cols as usize))
        },
        ChipVariant::PJP255 | ChipVariant::PJP215 => {
            let drives = match read_user_reg(dev, 0, 0x5A) {
                Ok(v) => v,
                Err(e) => {
                    return Err(SetupError::Io(e));
                },
            };
            let senses = match read_user_reg(dev, 0, 0x59) {
                Ok(v) => v,
                Err(e) => {
                    return Err(SetupError::Io(e));
                },
            };
            Ok((drives as usize, senses as usize))
        },
        ChipVariant::PLP239 => {
            let drives = match read_reg(dev, 9, 0x01) {
                Ok(v) => v,
                Err(e) => {
                    return Err(SetupError::Io(e));
                },
            };
            let senses = match read_reg(dev, 9, 0x02) {
                Ok(v) => v,
                Err(e) => {
                    return Err(SetupError::Io(e));
                },
            };
            Ok((drives as usize + 1, senses as usize + 1))
        },
    }
}

/// The signed 16-bit sample encoded little-endian by a byte pair.
pub open spec fn i16_from_le(lo: u8, hi: u8) -> int {
    if lo + 256 * hi < 32768 {
        lo + 256 * hi
    } else {
        lo + 256 * hi - 65536
    }
}

/// The sample at index `i` of a raw burst buffer: bytes `2i` and `2i + 1`
/// taken little-endian.
pub open spec fn sample_at(raw: Seq<u8>, i: int) -> int {
    i16_from_le(raw[2 * i], raw[2 * i + 1])
}

/// Regroup a raw burst buffer into little-endian signed 16-bit samples,
/// two bytes per sample, in the order received.
pub fn decode_samples(raw: &Vec<u8>) -> (out: Vec<i16>)
    requires
        raw@.len() % 2 == 0,
    ensures
        out@.len() == raw@.len() / 2,
        forall|i: int| 0 <= i < out@.len() ==> out@[i] as int == sample_at(raw@, i),
{
    let len = raw.len();
    let n = len / 2;
    let mut out: Vec<i16> = Vec::new();
    let mut i: usize = 0;
    while i < n
        invariant
            i <= n,
            raw@.len() == len,
            n == raw@.len() / 2,
            raw@.len() % 2 == 0,
            out@.len() == i,
            forall|k: int| 0 <= k < i ==> out@[k] as int == sample_at(raw@, k),
        decreases n - i,
    {
        proof {
            vstd::arithmetic::div_mod::lemma_fundamental_div_mod(raw@.len() as int, 2);
            assert(2 * i + 1 < raw@.len());
        }
        let lo = raw[2 * i];
        let hi = raw[2 * i + 1];
        let u: u32 = lo as u32 + 256 * (hi as u32);
        let s: i32 = if u >= 32768 {
            u as i32 - 65536
        } else {
            u as i32
        };
        out.push(s as i16);
        i = i + 1;
    }
    out
}

/// Family A (PJP274/PJP343) acquisition: program the matrix shape into
/// bank 6 (0x0E = cols - 1, 0x0F = rows - 1), select SRAM frame 0, assert
/// chip-select, burst-read, deassert chip-select. A failure propagates
/// immediately without attempting the remaining steps.
fn read_frame_family_a<D: HidDevice>(
    dev: &mut D,
    rows: usize,
    cols: usize,
    total_bytes: usize,
    burst_len: usize,
) -> (r: Result<Vec<u8>, TransferError>)
    requires
        1 <= rows <= 256,
        1 <= cols <= 256,
        1 <= burst_len < usize::MAX,
    ensures
        r is Ok ==> r->Ok_0@.len() == total_bytes,
{
    match write_reg(dev, 6, 0x0E, (cols - 1) as u8) {
        Ok(()) => (),
        Err(e) => {
            return Err(TransferError::Io(e));
        },
    }
    match write_reg(dev, 6, 0x0F, (rows - 1) as u8) {
        Ok(()) => (),
        Err(e) => {
            return Err(TransferError::Io(e));
        },
    }
    match write_reg(dev, 6, 0x09, 0x05) {
        Ok(()) => (),
        Err(e) => {
            return Err(TransferError::Io(e));
        },
    }
    match write_reg(dev, 6, 0x0A, 0x00) {
        Ok(()) => (),
        Err(e) => {
            return Err(TransferError::Io(e));
        },
    }
    let data = match burst_read(dev, total_bytes, burst_len) {
        Ok(d) => d,
        Err(e) => {
            return Err(e);
        },
    };
    match write_reg(dev, 6, 0x0A, 0x01) {
        Ok(()) => (),
        Err(e) => {
            return Err(TransferError::Io(e));
        },
    }
    Ok(data)
}

/// Family B (PJP255/PJP215) acquisition: enable frame-buffer mode on bank
/// 1, select SRAM frame 0 and assert chip-select on bank 2, burst-read,
/// deassert chip-select.
fn read_frame_family_b<D: HidDevice>(dev: &mut D, total_bytes: usize, burst_len: usize) -> (r:
    Result<Vec<u8>, TransferError>)
    requires
        1 <= burst_len < usize::MAX,
    ensures
        r is Ok ==> r->Ok_0@.len() == total_bytes,
{
    match write_reg(dev, 1, 0x0D, 0x40) {
        Ok(()) => (),
        Err(e) => {
            return Err(TransferError::Io(e));
        },
    }
    match write_reg(dev, 1, 0x0E, 0x06) {
        Ok(()) => (),
        Err(e) => {
            return Err(TransferError::Io(e));
        },
    }
    match write_reg(dev, 2, 0x09, 0x05) {
        Ok(()) => (),
        Err(e) => {
            return Err(TransferError::Io(e));
        },
    }
    match write_reg(dev, 2, 0x0A, 0x00) {
        Ok(()) => (),
        Err(e) => {
            return Err(TransferError::Io(e));
        },
    }
    let data = match burst_read(dev, total_bytes, burst_len) {
        Ok(d) => d,
        Err(e) => {
            return Err(e);
        },
    };
    match write_reg(dev, 2, 0x0A, 0x01) {
        Ok(()) => (),
        Err(e) => {
            return Err(TransferError::Io(e));
        },
    }
    Ok(data)
}

/// Family C (PLP239) acquisition: unlock protection, issue the flash-read
/// command, busy-poll the finish bit (bank 6, 0x27, bit 0) for at most
/// 1000 iterations and proceed regardless of the outcome, finalize, reset
/// the SRAM read offset on bank 4, enter SRAM read mode, burst-read, and
/// finalize again.
fn read_frame_family_c<D: HidDevice>(dev: &mut D, total_bytes: usize, burst_len: usize) -> (r:
    Result<Vec<u8>, TransferError>)
    requires
        1 <= burst_len < usize::MAX,
    ensures
        r is Ok ==> r->Ok_0@.len() == total_bytes,
{
    match write_reg(dev, 6, 0x20, 0xCC) {
        Ok(()) => (),
        Err(e) => {
            return Err(TransferError::Io(e));
        },
    }
    match write_reg(dev, 6, 0x25, 0x77) {
        Ok(()) => (),
        Err(e) => {
            return Err(TransferError::Io(e));
        },
    }
    let mut polls: usize = 0;
    let mut finished = false;
    while polls < 1000 && !finished
        invariant
            polls <= 1000,
        decreases 1000 - polls,
    {
        let status = match read_reg(dev, 6, 0x27) {
            Ok(v) => v,
            Err(e) => {
                return Err(TransferError::Io(e));
            },
        };
        if status & 0x01 != 0 {
            finished = true;
        }
        polls = polls + 1;
    }
    match write_reg(dev, 6, 0x25, 0xDD) {
        Ok(()) => (),
        Err(e) => {
            return Err(TransferError::Io(e));
        },
    }
    match write_reg(dev, 4, 0x1C, 0x00) {
        Ok(()) => (),
        Err(e) => {
            return Err(TransferError::Io(e));
        },
    }
    match write_reg(dev, 4, 0x1D, 0x00) {
        Ok(()) => (),
        Err(e) => {
            return Err(TransferError::Io(e));
        },
    }
    match write_reg(dev, 6, 0x25, 0x11) {
        Ok(()) => (),
        Err(e) => {
            return Err(TransferError::Io(e));
        },
    }
    let data = match burst_read(dev, total_bytes, burst_len) {
        Ok(d) => d,
        Err(e) => {
            return Err(e);
        },
    };
    match write_reg(dev, 6, 0x25, 0xDD) {
        Ok(()) => (),
        Err(e) => {
            return Err(TransferError::Io(e));
        },
    }
    Ok(data)
}

/// Read one raw capacitive frame through the chip family's register
/// sequence and regroup it into `rows * cols` little-endian signed 16-bit
/// samples in row-major order.
///
/// A successful frame always holds exactly `rows * cols` samples; a
/// mid-sequence failure surfaces immediately and no rollback is
/// attempted.
pub fn read_frame<D: HidDevice>(
    dev: &mut D,
    chip: ChipVariant,
    rows: usize,
    cols: usize,
    burst_len: usize,
) -> (r: Result<Vec<i16>, TransferError>)
    requires
        1 <= rows <= 256,
        1 <= cols <= 256,
        1 <= burst_len < usize::MAX,
    ensures
        r is Ok ==> r->Ok_0@.len() == rows * cols,
{
    proof {
        assert(1 <= rows * cols <= 65536) by (nonlinear_arith)
            requires
                1 <= rows <= 256,
                1 <= cols <= 256;
    }
    let total_bytes: usize = rows * cols * 2;
    let raw = match chip {
        ChipVariant::PJP274 | ChipVariant::PJP343 => {
            match read_frame_family_a(dev, rows, cols, total_bytes, burst_len) {
                Ok(d) => d,
                Err(e) => {
                    return Err(e);
                },
            }
        },
        ChipVariant::PJP255 | ChipVariant::PJP215 => {
            match read_frame_family_b(dev, total_bytes, burst_len) {
                Ok(d) => d,
                Err(e) => {
                    return Err(e);
                },
            }
        },
        ChipVariant::PLP239 => {
            match read_frame_family_c(dev, total_bytes, burst_len) {
                Ok(d) => d,
                Err(e) => {
                    return Err(e);
                },
            }
        },
    };
    proof {
        assert(raw@.len() == rows * cols * 2);
        assert(raw@.len() % 2 == 0);
        assert(raw@.len() / 2 == rows * cols);
    }
    Ok(decode_samples(&raw))
}

} // verus!
