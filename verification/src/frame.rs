//! Session setup and the per-iteration acquisition step: one call reads a
//! raw frame through the chip's register sequence, folds its mean into
//! the drift detector and assembles the outgoing `HeatmapFrame`.
//!
//! The long-lived loop around this step — channels, timing, diagnostics —
//! is ordinary unverified plumbing in the embedding program; everything
//! the loop decides per iteration is here.

use vstd::prelude::*;

use crate::chips::{identify_chip, read_frame, read_matrix_dims, ChipVariant, SetupError};
use crate::detector::{
    compute_mean_micro, mean_micro_of, model_out, model_step, model_wf, CalibrationEdge,
    CalibrationState,
};
use crate::device::HidDevice;
use crate::protocol::TransferError;

verus! {

/// A control message for the acquisition loop's Automatic Level Control
/// handling, consumed at most once per iteration.
#[derive(Clone, Copy, Debug, PartialEq, Eq, Structural)]
pub enum AlcCommand {
    /// Force an ALC filter reset (clears the learned baseline).
    Reset,
    /// Enable ALC (automatic gain adjustment).
    Enable,
    /// Disable ALC (freeze current gain values).
    Disable,
}

/// One decoded sensor snapshot, immutable after construction. The mean
/// fields are in micro-units (millionths of one raw sample unit), as
/// maintained by the drift detector.
#[derive(Clone, Debug)]
pub struct HeatmapFrame {
    /// Display row count: the sample count divided by the display column
    /// count, which may be overridden independently of the hardware
    /// shape.
    pub rows: usize,
    /// Display column count.
    pub cols: usize,
    /// Row-major signed 16-bit capacitance samples.
    pub data: Vec<i16>,
    /// Raw mean across all cells, in micro-units.
    pub mean: i64,
    /// Slow EMA of the mean (the drift baseline), in micro-units.
    pub smoothed_mean: i64,
    /// Change of the smoothed baseline per frame, in micro-units.
    pub drift_rate: i64,
    /// True while sustained drift indicates firmware calibration.
    pub calibrating: bool,
}

/// Identify the chip and read its matrix shape, failing closed on an
/// unknown part ID or a shape without cells.
///
/// On success the dimensions are always usable: between 1 and 256 in
/// each direction.
pub fn start_session<D: HidDevice>(dev: &mut D) -> (r: Result<(ChipVariant, usize, usize), SetupError>)
    ensures
        r is Ok ==> 1 <= r->Ok_0.1 <= 256 && 1 <= r->Ok_0.2 <= 256,
{
    let chip = match identify_chip(dev) {
        Ok(c) => c,
        Err(e) => {
            return Err(e);
        },
    };
    let (rows, cols) = match read_matrix_dims(dev, chip) {
        Ok(d) => d,
        Err(e) => {
            return Err(e);
        },
    };
    if rows == 0 || cols == 0 {
        return Err(SetupError::InvalidDimensions(rows, cols));
    }
    Ok((chip, rows, cols))
}

/// Acquire one frame and advance the drift detector by exactly one step.
///
/// The hardware read always uses the register-derived shape; the
/// returned frame is regrouped for display under `display_cols`, which
/// may be overridden independently. On success the frame holds exactly
/// `rows * cols` samples, its mean is the exact truncated micro-unit
/// mean of those samples, and its baseline fields are the detector's
/// one-step outputs; the returned edge is the calibrating flag's
/// transition, for the caller to report. On failure the detector is left
/// untouched and no partial frame escapes.
pub fn acquire_frame<D: HidDevice>(
    dev: &mut D,
    chip: ChipVariant,
    rows: usize,
    cols: usize,
    burst_len: usize,
    display_cols: usize,
    det: &mut CalibrationState,
) -> (r: Result<(HeatmapFrame, CalibrationEdge), TransferError>)
    requires
        1 <= rows <= 256,
        1 <= cols <= 256,
        1 <= burst_len < usize::MAX,
        1 <= display_cols,
        model_wf(old(det)@),
    ensures
        model_wf(final(det)@),
        r is Err ==> final(det)@ == old(det)@,
        r is Ok ==> {
            let f = r->Ok_0.0;
            &&& f.data@.len() == rows * cols
            &&& f.cols == display_cols
            &&& f.rows == f.data@.len() as int / display_cols as int
            &&& f.mean as int == mean_micro_of(f.data@)
            &&& final(det)@ == model_step(old(det)@, f.mean)
            &&& f.smoothed_mean == model_out(old(det)@, f.mean).smoothed_mean
            &&& f.drift_rate == model_out(old(det)@, f.mean).drift_rate
            &&& f.calibrating == model_out(old(det)@, f.mean).calibrating
            &&& r->Ok_0.1 == model_out(old(det)@, f.mean).edge
        },
{
    let data = match read_frame(dev, chip, rows, cols, burst_len) {
        Ok(d) => d,
        Err(e) => {
            return Err(e);
        },
    };
    proof {
        assert(1 <= rows * cols <= 65536) by (nonlinear_arith)
            requires
                1 <= rows <= 256,
                1 <= cols <= 256;
    }
    let mean = compute_mean_micro(&data);
    let upd = det.update(mean);
    let display_rows = data.len() / display_cols;
    let frame = HeatmapFrame {
        rows: display_rows,
        cols: display_cols,
        data,
        mean,
        smoothed_mean: upd.smoothed_mean,
        drift_rate: upd.drift_rate,
        calibrating: upd.calibrating,
    };
    Ok((frame, upd.edge))
}

} // verus!
