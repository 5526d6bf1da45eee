//! End-to-end acquisition scenarios: session setup, frame assembly with
//! a display-column override, and the mean fed into the drift detector.

use tapview::chips::{ChipVariant, SetupError};
use tapview::detector::{CalibrationEdge, CalibrationState};
use tapview::device::{HidDevice, IoError};
use tapview::frame::{acquire_frame, start_session, AlcCommand};
use tapview::protocol::{READ_FLAG, REPORT_BURST, REPORT_SINGLE};

/// A register-level stub serving reads from a table and bursts from a
/// backing buffer.
struct SessionStub {
    regs: Vec<(u8, u8, u8, u8)>,
    burst_data: Vec<u8>,
    burst_pos: usize,
    chunk_payload: usize,
    pending: Option<(u8, u8, u8)>,
}

impl SessionStub {
    fn new(regs: Vec<(u8, u8, u8, u8)>) -> Self {
        SessionStub {
            regs,
            burst_data: Vec::new(),
            burst_pos: 0,
            chunk_payload: 16,
            pending: None,
        }
    }
}

impl HidDevice for SessionStub {
    fn set_feature(&mut self, buf: &Vec<u8>) -> Result<(), IoError> {
        if buf[2] & READ_FLAG != 0 {
            self.pending = Some((buf[0], buf[2] & !READ_FLAG, buf[1]));
        }
        Ok(())
    }

    fn get_feature(&mut self, buf: &mut Vec<u8>) -> Result<usize, IoError> {
        if buf[0] == REPORT_BURST {
            let remaining = self.burst_data.len() - self.burst_pos;
            let take = self.chunk_payload.min(remaining).min(buf.len() - 1);
            if take == 0 {
                return Ok(0);
            }
            for k in 0..take {
                buf[1 + k] = self.burst_data[self.burst_pos + k];
            }
            self.burst_pos += take;
            return Ok(1 + take);
        }
        let (report, bank, addr) = self.pending.take().expect("get without pending read");
        let v = self
            .regs
            .iter()
            .find(|r| r.0 == report && r.1 == bank && r.2 == addr)
            .map(|r| r.3)
            .unwrap_or(0);
        buf[3] = v;
        Ok(4)
    }
}

/// Registers for a family B chip (PJP255, part ID 0x0255) reporting
/// rows = 15 drives and cols = 12 senses.
fn family_b_regs() -> Vec<(u8, u8, u8, u8)> {
    vec![
        (REPORT_SINGLE, 0, 0x78, 0x55),
        (REPORT_SINGLE, 0, 0x79, 0x02),
        (0x43, 0, 0x5A, 15),
        (0x43, 0, 0x59, 12),
    ]
}

#[test]
fn start_session_family_b() {
    let mut dev = SessionStub::new(family_b_regs());
    let (chip, rows, cols) = start_session(&mut dev).unwrap();
    assert_eq!(chip, ChipVariant::PJP255);
    assert_eq!(rows, 15);
    assert_eq!(cols, 12);
}

#[test]
fn start_session_rejects_zero_dimensions() {
    let mut dev = SessionStub::new(vec![
        (REPORT_SINGLE, 0, 0x78, 0x55),
        (REPORT_SINGLE, 0, 0x79, 0x02),
        (0x43, 0, 0x5A, 0),
        (0x43, 0, 0x59, 12),
    ]);
    assert_eq!(
        start_session(&mut dev),
        Err(SetupError::InvalidDimensions(0, 12))
    );
}

#[test]
fn start_session_unknown_chip() {
    let mut dev = SessionStub::new(vec![
        (REPORT_SINGLE, 0, 0x78, 0xCD),
        (REPORT_SINGLE, 0, 0x79, 0xAB),
    ]);
    assert_eq!(
        start_session(&mut dev),
        Err(SetupError::UnsupportedChip(0xABCD))
    );
}

#[test]
fn family_b_frame_with_cols_override() {
    // Hardware shape 15x12, display columns overridden to 10: the
    // emitted frame reports cols == 10 and rows == (15 * 12) / 10.
    let mut dev = SessionStub::new(family_b_regs());
    let (chip, rows, cols) = start_session(&mut dev).unwrap();
    dev.burst_data = vec![0; rows * cols * 2];
    let mut det = CalibrationState::new();
    let (frame, edge) = acquire_frame(&mut dev, chip, rows, cols, 16, 10, &mut det).unwrap();
    assert_eq!(frame.cols, 10);
    assert_eq!(frame.rows, (15 * 12) / 10);
    assert_eq!(frame.data.len(), 180);
    assert_eq!(frame.mean, 0);
    assert_eq!(frame.smoothed_mean, 0);
    assert_eq!(frame.drift_rate, 0);
    assert!(!frame.calibrating);
    assert_eq!(edge, CalibrationEdge::Steady);
}

#[test]
fn acquire_frame_mean_is_exact_truncated_micro_mean() {
    // Four samples 1, 2, 0, 0: sum 3 over 4 cells = 0.75 raw units,
    // 750_000 micro-units exactly.
    let mut dev = SessionStub::new(Vec::new());
    dev.burst_data = vec![0x01, 0x00, 0x02, 0x00, 0x00, 0x00, 0x00, 0x00];
    let mut det = CalibrationState::new();
    let (frame, _) =
        acquire_frame(&mut dev, ChipVariant::PJP274, 2, 2, 8, 2, &mut det).unwrap();
    assert_eq!(frame.mean, 750_000);
    // First frame: the smoothed baseline equals the mean exactly.
    assert_eq!(frame.smoothed_mean, 750_000);
}

#[test]
fn negative_mean_truncates_toward_zero() {
    // Samples -1, 0, 0 on a 1x3 matrix: -1_000_000 / 3 truncates toward
    // zero to -333_333.
    let mut dev = SessionStub::new(Vec::new());
    dev.burst_data = vec![0xFF, 0xFF, 0x00, 0x00, 0x00, 0x00];
    let mut det = CalibrationState::new();
    let (frame, _) =
        acquire_frame(&mut dev, ChipVariant::PJP274, 1, 3, 8, 3, &mut det).unwrap();
    assert_eq!(frame.mean, -333_333);
}

#[test]
fn acquire_frame_failure_leaves_detector_untouched() {
    let mut dev = SessionStub::new(Vec::new());
    dev.burst_data = vec![0; 2]; // too short: burst stalls at zero payload
    let mut det = CalibrationState::new();
    let r = acquire_frame(&mut dev, ChipVariant::PJP274, 2, 2, 8, 2, &mut det);
    assert!(r.is_err());
    assert!(det.ema.is_none());
    assert!(det.history.is_empty());
}

#[test]
fn alc_commands_are_plain_values() {
    let c = AlcCommand::Reset;
    assert_eq!(c, AlcCommand::Reset);
    assert_ne!(AlcCommand::Enable, AlcCommand::Disable);
}
