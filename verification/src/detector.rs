//! The calibration drift detector: a streaming filter over per-frame mean
//! values that maintains a slow-moving baseline and flags sustained drift.
//!
//! All quantities are carried in micro-units (millionths of one raw sample
//! unit) so that the filter is exact integer arithmetic: a mean of 1.5 raw
//! units is 1_500_000. Division is truncated toward zero. Per frame the
//! filter updates an exponential moving average with factor 5/1000, keeps
//! the most recent 500 smoothed means in a ring, derives the drift rate
//! (change of the smoothed baseline per frame across the ring) and flags
//! calibration while the ring is full and the drift magnitude exceeds
//! 20_000 micro-units (0.02) per frame. The detector is total: it has no
//! failure modes and is a pure function of its running state and the new
//! mean.

use vstd::arithmetic::div_mod::{
    lemma_div_is_ordered, lemma_div_multiples_vanish, lemma_div_nonincreasing, lemma_div_of0,
    lemma_div_pos_is_pos,
};
use vstd::prelude::*;

verus! {

/// Numerator of the EMA smoothing factor (5/1000 = 0.005).
pub const EMA_NUM: i64 = 5;

/// Denominator of the EMA smoothing factor.
pub const EMA_DEN: i64 = 1000;

/// Ring capacity: how many smoothed means the drift window spans.
pub const DRIFT_WINDOW: usize = 500;

/// Drift-rate magnitude, in micro-units per frame, above which a full ring
/// flags active calibration (0.02 raw units per frame).
pub const DRIFT_THRESHOLD_MICRO: i64 = 20000;

/// Least mean value representable by a frame of i16 samples, in
/// micro-units.
pub const MEAN_MIN_MICRO: i64 = -32768000000;

/// Greatest mean value representable by a frame of i16 samples, in
/// micro-units.
pub const MEAN_MAX_MICRO: i64 = 32767000000;

/// Integer division truncated toward zero (the divisor is positive
/// wherever this is applied).
pub open spec fn tdiv(a: int, b: int) -> int {
    if a >= 0 {
        a / b
    } else {
        -((-a) / b)
    }
}

/// The next smoothed baseline: the mean itself on the very first frame,
/// afterwards `prev + (mean - prev) * 5 / 1000` with truncated division.
pub open spec fn ema_next(prev: Option<i64>, mean: i64) -> int {
    match prev {
        Option::Some(s) => s + tdiv((mean - s) * EMA_NUM, EMA_DEN as int),
        Option::None => mean as int,
    }
}

/// The ring after pushing one smoothed mean: the oldest entry is dropped
/// first whenever the ring is already full.
pub open spec fn hist_next(h: Seq<i64>, smoothed: i64) -> Seq<i64> {
    if h.len() >= DRIFT_WINDOW {
        h.remove(0).push(smoothed)
    } else {
        h.push(smoothed)
    }
}

/// Drift rate of a ring: change from its oldest to its newest entry,
/// divided by its length, once it holds at least two entries; zero before
/// that.
pub open spec fn drift_of(h: Seq<i64>) -> int {
    if h.len() >= 2 {
        tdiv(h.last() - h[0], h.len() as int)
    } else {
        0
    }
}

/// Whether a ring flags active calibration: full, and drifting faster
/// than the threshold in either direction.
pub open spec fn calibrating_of(h: Seq<i64>) -> bool {
    let d = drift_of(h);
    h.len() >= DRIFT_WINDOW && (if d >= 0 {
        d
    } else {
        -d
    }) > DRIFT_THRESHOLD_MICRO
}

/// The observable transition of the calibrating flag between two frames.
#[derive(Clone, Copy, Debug, PartialEq, Eq, Structural)]
pub enum CalibrationEdge {
    Steady,
    Started,
    Stopped,
}

/// The edge reported when the flag moves from `was` to `now`.
pub open spec fn edge_of(was: bool, now: bool) -> CalibrationEdge {
    if now && !was {
        CalibrationEdge::Started
    } else if !now && was {
        CalibrationEdge::Stopped
    } else {
        CalibrationEdge::Steady
    }
}

/// What one frame reports: the new baseline, the drift rate, the
/// calibrating flag and its edge, all in micro-units.
#[derive(Clone, Copy, Debug, PartialEq, Eq, Structural)]
pub struct DriftUpdate {
    pub smoothed_mean: i64,
    pub drift_rate: i64,
    pub calibrating: bool,
    pub edge: CalibrationEdge,
}

/// The mathematical state of the detector: EMA accumulator, ring of
/// recent smoothed means (oldest first) and the edge-trigger latch.
pub struct DetectorModel {
    pub ema: Option<i64>,
    pub history: Seq<i64>,
    pub was_calibrating: bool,
}

/// The state of a freshly constructed (or reset) detector.
pub open spec fn initial_model() -> DetectorModel {
    DetectorModel { ema: Option::None, history: Seq::empty(), was_calibrating: false }
}

/// One step of the detector on a model state: the successor state and
/// what that frame reports.
pub open spec fn step_full(md: DetectorModel, mean: i64) -> (DetectorModel, DriftUpdate) {
    let s = ema_next(md.ema, mean) as i64;
    let h = hist_next(md.history, s);
    let dr = drift_of(h) as i64;
    let cal = calibrating_of(h);
    let md2 = DetectorModel { ema: Option::Some(s), history: h, was_calibrating: cal };
    let out = DriftUpdate {
        smoothed_mean: s,
        drift_rate: dr,
        calibrating: cal,
        edge: edge_of(md.was_calibrating, cal),
    };
    (md2, out)
}

/// The successor state of one step.
pub open spec fn model_step(md: DetectorModel, mean: i64) -> DetectorModel {
    step_full(md, mean).0
}

/// What one step reports.
pub open spec fn model_out(md: DetectorModel, mean: i64) -> DriftUpdate {
    step_full(md, mean).1
}

/// Everything a run of the detector reports, frame by frame.
pub open spec fn run_outputs(md: DetectorModel, means: Seq<i64>) -> Seq<DriftUpdate>
    decreases means.len(),
{
    if means.len() == 0 {
        Seq::empty()
    } else {
        seq![model_out(md, means.first())] + run_outputs(model_step(md, means.first()),
        means.drop_first())
    }
}

/// A mean value a frame of i16 samples can have, in micro-units.
pub open spec fn in_mean_range(x: int) -> bool {
    MEAN_MIN_MICRO <= x <= MEAN_MAX_MICRO
}

/// The invariant of a detector state: the ring never exceeds its
/// capacity and every stored value is a representable mean.
pub open spec fn model_wf(md: DetectorModel) -> bool {
    &&& md.history.len() <= DRIFT_WINDOW
    &&& (forall|i: int| 0 <= i < md.history.len() ==> in_mean_range((#[trigger] md.history[i]) as int))
    &&& (md.ema matches Option::Some(s) ==> in_mean_range(s as int))
}

/// The calibration drift detector, a streaming filter. Mutated
/// once per acquired frame by its owning loop; `reset` returns it to the
/// initial state.
pub struct CalibrationState {
    /// EMA accumulator in micro-units; absent until the first frame.
    pub ema: Option<i64>,
    /// Ring of the most recent smoothed means, oldest first.
    pub history: Vec<i64>,
    /// Whether the previous frame was flagged as calibrating.
    pub was_calibrating: bool,
}

impl View for CalibrationState {
    type V = DetectorModel;

    open spec fn view(&self) -> DetectorModel {
        DetectorModel {
            ema: self.ema,
            history: self.history@,
            was_calibrating: self.was_calibrating,
        }
    }
}

/// Truncated-toward-zero division of a bounded i64 by a positive divisor.
fn tdiv_i64(a: i64, b: u64) -> (r: i64)
    requires
        1 <= b,
        -0x4000000000000000 <= a <= 0x4000000000000000,
    ensures
        r as int == tdiv(a as int, b as int),
        a >= 0 ==> 0 <= r <= a,
        a < 0 ==> a <= r <= 0,
{
    if a >= 0 {
        let q = (a as u64) / b;
        proof {
            lemma_div_nonincreasing(a as int, b as int);
            lemma_div_pos_is_pos(a as int, b as int);
        }
        q as i64
    } else {
        let n = (-a) as u64;
        let q = n / b;
        proof {
            lemma_div_nonincreasing(n as int, b as int);
            lemma_div_pos_is_pos(n as int, b as int);
        }
        -(q as i64)
    }
}

/// The scaled difference `(m - s) * 5 / 1000` (truncated) never
/// overshoots: one EMA step stays between the old baseline and the new
/// mean. This is the monotone-convergence core of the filter: under a
/// constant input the baseline moves toward it and never past it.
pub proof fn lemma_ema_step_between(s: int, m: int)
    ensures
        s <= m ==> s <= s + tdiv((m - s) * 5, 1000) <= m,
        m <= s ==> m <= s + tdiv((m - s) * 5, 1000) <= s,
{
    let d = m - s;
    if d >= 0 {
        lemma_div_pos_is_pos(d * 5, 1000);
        assert(d * 5 <= 1000 * d) by (nonlinear_arith)
            requires
                d >= 0;
        lemma_div_is_ordered(d * 5, 1000 * d, 1000);
        lemma_div_multiples_vanish(d, 1000);
        assert(tdiv(d * 5, 1000) == (d * 5) / 1000);
        assert(0 <= tdiv(d * 5, 1000) <= d);
    } else {
        let e = -d;
        assert(-(d * 5) == e * 5);
        lemma_div_pos_is_pos(e * 5, 1000);
        assert(e * 5 <= 1000 * e) by (nonlinear_arith)
            requires
                e >= 0;
        lemma_div_is_ordered(e * 5, 1000 * e, 1000);
        lemma_div_multiples_vanish(e, 1000);
        assert(tdiv(d * 5, 1000) == -((e * 5) / 1000));
        assert(d <= tdiv(d * 5, 1000) <= 0);
    }
}

impl CalibrationState {
    /// A detector with no prior baseline, an empty ring and a clear latch.
    pub fn new() -> (d: Self)
        ensures
            d@ == initial_model(),
            model_wf(d@),
    {
        let d = CalibrationState { ema: None, history: Vec::new(), was_calibrating: false };
        proof {
            assert(d@.history =~= initial_model().history);
        }
        d
    }

    /// Return to the initial state, as if freshly constructed.
    pub fn reset(&mut self)
        ensures
            final(self)@ == initial_model(),
            model_wf(final(self)@),
    {
        self.ema = None;
        self.history.clear();
        self.was_calibrating = false;
        proof {
            assert(self@.history =~= initial_model().history);
        }
    }

    /// Consume one frame mean (in micro-units) and report the new
    /// baseline, drift rate, calibrating flag and edge. The state moves
    /// exactly one model step; the detector never fails.
    pub fn update(&mut self, mean_micro: i64) -> (o: DriftUpdate)
        requires
            model_wf(old(self)@),
            in_mean_range(mean_micro as int),
        ensures
            model_wf(final(self)@),
            final(self)@ == model_step(old(self)@, mean_micro),
            o == model_out(old(self)@, mean_micro),
            o.smoothed_mean as int == ema_next(old(self)@.ema, mean_micro),
            in_mean_range(o.smoothed_mean as int),
    {
        let smoothed: i64 = match self.ema {
            Some(s) => {
                let d = mean_micro - s;
                let q = tdiv_i64(d * 5, 1000);
                proof {
                    lemma_ema_step_between(s as int, mean_micro as int);
                }
                s + q
            },
            None => mean_micro,
        };
        self.ema = Some(smoothed);
        if self.history.len() >= DRIFT_WINDOW {
            self.history.remove(0);
        }
        self.history.push(smoothed);
        proof {
            assert(self@.history == hist_next(old(self)@.history, smoothed));
            assert(forall|i: int|
                0 <= i < self@.history.len() ==> in_mean_range(
                    (#[trigger] self@.history[i]) as int,
                ));
            assert(self@.history.last() == smoothed);
        }
        let len = self.history.len();
        let drift: i64 = if len >= 2 {
            let oldest = self.history[0];
            let delta = smoothed - oldest;
            tdiv_i64(delta, len as u64)
        } else {
            0
        };
        let mag = if drift >= 0 {
            drift
        } else {
            -drift
        };
        let calibrating = len >= DRIFT_WINDOW && mag > DRIFT_THRESHOLD_MICRO;
        let edge = if calibrating && !self.was_calibrating {
            CalibrationEdge::Started
        } else if !calibrating && self.was_calibrating {
            CalibrationEdge::Stopped
        } else {
            CalibrationEdge::Steady
        };
        self.was_calibrating = calibrating;
        DriftUpdate { smoothed_mean: smoothed, drift_rate: drift, calibrating, edge }
    }
}

/// The same mean repeated `n` times.
pub open spec fn const_means(m: i64, n: nat) -> Seq<i64> {
    Seq::new(n, |i: int| m)
}

/// A detector whose baseline already equals the constant input never
/// moves again: every reported smoothed mean stays exactly `m`.
pub proof fn lemma_constant_input_locks(md: DetectorModel, m: i64, n: nat)
    requires
        md.ema == Option::Some(m),
    ensures
        run_outputs(md, const_means(m, n)).len() == n,
        forall|i: int| 0 <= i < n ==> run_outputs(md, const_means(m, n))[i].smoothed_mean == m,
    decreases n,
{
    let ms = const_means(m, n);
    if n > 0 {
        assert(ms.first() == m);
        lemma_div_of0(1000);
        assert((m - m) * 5 == 0);
        assert(ema_next(Option::Some(m), m) == m as int);
        let md2 = model_step(md, m);
        assert(md2.ema == Option::Some(m));
        assert(ms.drop_first() =~= const_means(m, (n - 1) as nat));
        lemma_constant_input_locks(md2, m, (n - 1) as nat);
        let r = run_outputs(md, ms);
        let rt = run_outputs(md2, const_means(m, (n - 1) as nat));
        assert(r == seq![model_out(md, m)] + rt);
        assert(model_out(md, m).smoothed_mean == m);
        assert forall|i: int| 0 <= i < n implies r[i].smoothed_mean == m by {
            if i > 0 {
                assert(r[i] == rt[i - 1]);
            }
        }
    }
}

/// EMA convergence under a constant input: starting from a fresh
/// detector, the very first frame sets the smoothed mean to the input
/// exactly, and every later frame keeps it there. Together with
/// `lemma_ema_step_between` (one step never overshoots and moves toward
/// the input) this is the monotone-convergence property of the baseline.
pub proof fn lemma_ema_constant_from_fresh(m: i64, n: nat)
    ensures
        run_outputs(initial_model(), const_means(m, n)).len() == n,
        forall|i: int|
            0 <= i < n ==> run_outputs(initial_model(), const_means(m, n))[i].smoothed_mean == m,
{
    let md = initial_model();
    let ms = const_means(m, n);
    if n > 0 {
        assert(ms.first() == m);
        assert(ema_next(Option::None, m) == m as int);
        let md2 = model_step(md, m);
        assert(md2.ema == Option::Some(m));
        assert(ms.drop_first() =~= const_means(m, (n - 1) as nat));
        lemma_constant_input_locks(md2, m, (n - 1) as nat);
        let r = run_outputs(md, ms);
        let rt = run_outputs(md2, const_means(m, (n - 1) as nat));
        assert(r == seq![model_out(md, m)] + rt);
        assert(model_out(md, m).smoothed_mean == m);
        assert forall|i: int| 0 <= i < n implies r[i].smoothed_mean == m by {
            if i > 0 {
                assert(r[i] == rt[i - 1]);
            }
        }
    }
}

/// The detector's reports are a pure function of the fed mean history:
/// two detectors in the freshly-reset state (which `new` and `reset`
/// both establish exactly) report identical drift-rate and calibrating
/// sequences for the same means, so replaying a sequence after a reset
/// reproduces the first run.
pub proof fn lemma_replay_identical(first: DetectorModel, second: DetectorModel, means: Seq<i64>)
    requires
        first == initial_model(),
        second == initial_model(),
    ensures
        run_outputs(first, means) == run_outputs(second, means),
{
}

/// The sum of a sequence of samples.
pub open spec fn sum_of(s: Seq<i16>) -> int
    decreases s.len(),
{
    if s.len() == 0 {
        0
    } else {
        sum_of(s.drop_last()) + s.last()
    }
}

/// The mean of a frame in micro-units: the sample sum scaled by one
/// million, divided (truncated toward zero) by the sample count.
pub open spec fn mean_micro_of(s: Seq<i16>) -> int {
    tdiv(sum_of(s) * 1000000, s.len() as int)
}

/// Compute a frame's mean in micro-units. The result is exactly
/// `mean_micro_of` of the samples and always lies in the representable
/// mean range.
pub fn compute_mean_micro(data: &Vec<i16>) -> (m: i64)
    requires
        1 <= data@.len() <= 65536,
    ensures
        m as int == mean_micro_of(data@),
        in_mean_range(m as int),
{
    let n = data.len();
    let mut sum: i64 = 0;
    let mut i: usize = 0;
    while i < n
        invariant
            i <= n,
            n == data@.len(),
            1 <= n <= 65536,
            sum == sum_of(data@.subrange(0, i as int)),
            -32768 * (i as int) <= sum as int <= 32767 * (i as int),
        decreases n - i,
    {
        let v = data[i];
        proof {
            assert(data@.subrange(0, i + 1 as int).drop_last() =~= data@.subrange(0, i as int));
            assert(data@.subrange(0, i + 1 as int).last() == data@[i as int]);
        }
        sum = sum + v as i64;
        i = i + 1;
    }
    proof {
        assert(data@.subrange(0, n as int) =~= data@);
    }
    let scaled = sum * 1000000;
    let m = tdiv_i64(scaled, n as u64);
    proof {
        lemma_mean_bound(sum as int, n as int);
    }
    m
}

/// A sum bounded per-sample keeps its scaled truncated mean within the
/// representable range.
proof fn lemma_mean_bound(sum: int, n: int)
    requires
        1 <= n,
        -32768 * n <= sum <= 32767 * n,
    ensures
        MEAN_MIN_MICRO <= tdiv(sum * 1000000, n) <= MEAN_MAX_MICRO,
{
    let a = sum * 1000000;
    if a >= 0 {
        lemma_div_pos_is_pos(a, n);
        assert(a <= 32767000000 * n);
        lemma_div_is_ordered(a, 32767000000 * n, n);
        assert((n * 32767000000) / n == 32767000000) by {
            lemma_div_multiples_vanish(32767000000, n);
        }
        assert(32767000000 * n == n * 32767000000);
        assert(tdiv(a, n) <= MEAN_MAX_MICRO);
    } else {
        let e = -a;
        assert(e == (-sum) * 1000000);
        assert(e <= 32768000000 * n);
        lemma_div_pos_is_pos(e, n);
        lemma_div_is_ordered(e, 32768000000 * n, n);
        assert((n * 32768000000) / n == 32768000000) by {
            lemma_div_multiples_vanish(32768000000, n);
        }
        assert(32768000000 * n == n * 32768000000);
        assert(e / n <= 32768000000);
        assert(tdiv(a, n) == -(e / n));
        assert(MEAN_MIN_MICRO <= tdiv(a, n) <= 0);
    }
}

} // verus!
