//! Burst-read and register-report encoding behaviour against stub
//! devices.

use tapview::device::{HidDevice, IoError};
use tapview::protocol::{
    burst_read, encode_read_request, encode_single_write, read_reg, read_user_reg, write_reg,
    TransferError, READ_FLAG, REPORT_BURST, REPORT_SINGLE, REPORT_USER,
};

/// Serves burst chunks of a fixed payload size from a backing buffer;
/// records every exchange.
struct ChunkStub {
    data: Vec<u8>,
    pos: usize,
    chunk_payload: usize,
    get_calls: usize,
    sets: Vec<Vec<u8>>,
    /// Value of `n` to return when the backing data is exhausted.
    exhausted_n: usize,
    fail_after: Option<usize>,
}

impl ChunkStub {
    fn new(data: Vec<u8>, chunk_payload: usize) -> Self {
        ChunkStub {
            data,
            pos: 0,
            chunk_payload,
            get_calls: 0,
            sets: Vec::new(),
            exhausted_n: 0,
            fail_after: None,
        }
    }
}

impl HidDevice for ChunkStub {
    fn set_feature(&mut self, buf: &Vec<u8>) -> Result<(), IoError> {
        self.sets.push(buf.clone());
        Ok(())
    }

    fn get_feature(&mut self, buf: &mut Vec<u8>) -> Result<usize, IoError> {
        self.get_calls += 1;
        if let Some(limit) = self.fail_after {
            if self.get_calls > limit {
                return Err(IoError { code: 5 });
            }
        }
        assert_eq!(buf[0], REPORT_BURST);
        let remaining = self.data.len() - self.pos;
        if remaining == 0 {
            return Ok(self.exhausted_n);
        }
        let take = self.chunk_payload.min(remaining).min(buf.len() - 1);
        for k in 0..take {
            buf[1 + k] = self.data[self.pos + k];
        }
        self.pos += take;
        Ok(1 + take)
    }
}

/// Answers two-step register reads from a fixed table.
struct RegStub {
    /// (report id, bank-with-flag, addr) -> value
    regs: Vec<(u8, u8, u8, u8)>,
    pending: Option<(u8, u8, u8)>,
}

impl RegStub {
    fn new(regs: Vec<(u8, u8, u8, u8)>) -> Self {
        RegStub { regs, pending: None }
    }
}

impl HidDevice for RegStub {
    fn set_feature(&mut self, buf: &Vec<u8>) -> Result<(), IoError> {
        if buf[2] & READ_FLAG != 0 {
            self.pending = Some((buf[0], buf[2] & !READ_FLAG, buf[1]));
        }
        Ok(())
    }

    fn get_feature(&mut self, buf: &mut Vec<u8>) -> Result<usize, IoError> {
        let (report, bank, addr) = self.pending.take().expect("get without pending read");
        assert_eq!(buf[0], report);
        let v = self
            .regs
            .iter()
            .find(|r| r.0 == report && r.1 == bank && r.2 == addr)
            .map(|r| r.3)
            .unwrap_or(0);
        buf[3] = v;
        Ok(4)
    }
}

#[test]
fn single_write_encoding() {
    let b = encode_single_write(6, 0x0E, 0x2A);
    assert_eq!(b, vec![REPORT_SINGLE, 0x0E, 6, 0x2A]);
}

#[test]
fn read_request_encoding() {
    let b = encode_read_request(REPORT_USER, 3, 0x59);
    assert_eq!(b, vec![REPORT_USER, 0x59, 3 | READ_FLAG, 0x00]);
}

#[test]
fn write_reg_sends_one_report() {
    let mut dev = ChunkStub::new(Vec::new(), 8);
    write_reg(&mut dev, 6, 0x0A, 0x01).unwrap();
    assert_eq!(dev.sets, vec![vec![REPORT_SINGLE, 0x0A, 6, 0x01]]);
}

#[test]
fn read_reg_returns_offset_three() {
    let mut dev = RegStub::new(vec![(REPORT_SINGLE, 0, 0x78, 0x74)]);
    assert_eq!(read_reg(&mut dev, 0, 0x78).unwrap(), 0x74);
}

#[test]
fn read_user_reg_uses_user_report() {
    let mut dev = RegStub::new(vec![(REPORT_USER, 0, 0x6E, 12), (REPORT_SINGLE, 0, 0x6E, 99)]);
    assert_eq!(read_user_reg(&mut dev, 0, 0x6E).unwrap(), 12);
}

#[test]
fn burst_read_accumulates_exactly_divisible() {
    // 12 bytes in chunks of 4: exactly 3 chunks, nothing read past.
    let data: Vec<u8> = (0u8..12).collect();
    let mut dev = ChunkStub::new(data.clone(), 4);
    let r = burst_read(&mut dev, 12, 4).unwrap();
    assert_eq!(r, data);
    assert_eq!(dev.get_calls, 3);
    assert_eq!(dev.pos, 12);
}

#[test]
fn burst_read_accumulates_not_divisible() {
    // 10 bytes in chunks of 4: the final chunk is taken only in part.
    let data: Vec<u8> = (0u8..12).collect();
    let mut dev = ChunkStub::new(data, 4);
    let r = burst_read(&mut dev, 10, 4).unwrap();
    assert_eq!(r, (0u8..10).collect::<Vec<u8>>());
    assert_eq!(dev.get_calls, 3);
}

#[test]
fn burst_read_zero_total_reads_nothing() {
    let mut dev = ChunkStub::new(vec![1, 2, 3], 4);
    let r = burst_read(&mut dev, 0, 4).unwrap();
    assert!(r.is_empty());
    assert_eq!(dev.get_calls, 0);
}

#[test]
fn burst_read_zero_payload_fails_closed() {
    // A final chunk populated with 0 bytes must not panic or underflow:
    // the read fails with the declared protocol ambiguity.
    let mut dev = ChunkStub::new(vec![7, 7, 7, 7], 4);
    dev.exhausted_n = 0;
    let r = burst_read(&mut dev, 8, 4);
    assert_eq!(r, Err(TransferError::ZeroLengthReport));
}

#[test]
fn burst_read_id_only_report_fails_closed() {
    // A chunk populated with only the report ID byte carries no payload.
    let mut dev = ChunkStub::new(Vec::new(), 4);
    dev.exhausted_n = 1;
    let r = burst_read(&mut dev, 8, 4);
    assert_eq!(r, Err(TransferError::ZeroLengthReport));
}

#[test]
fn burst_read_propagates_io_error() {
    let mut dev = ChunkStub::new((0u8..64).collect(), 4);
    dev.fail_after = Some(2);
    let r = burst_read(&mut dev, 64, 4);
    assert_eq!(r, Err(TransferError::Io(IoError { code: 5 })));
}

/// Claims more populated bytes than the buffer holds.
struct Overclaim;

impl HidDevice for Overclaim {
    fn set_feature(&mut self, _buf: &Vec<u8>) -> Result<(), IoError> {
        Ok(())
    }

    fn get_feature(&mut self, buf: &mut Vec<u8>) -> Result<usize, IoError> {
        for k in 1..buf.len() {
            buf[k] = 9;
        }
        Ok(buf.len() + 100)
    }
}

#[test]
fn burst_read_caps_overlong_population_claim() {
    let mut dev = Overclaim;
    let r = burst_read(&mut dev, 6, 4).unwrap();
    assert_eq!(r, vec![9, 9, 9, 9, 9, 9]);
}
