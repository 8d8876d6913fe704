//! Chart planning.
//!
//! The renderer splits in two: this module computes, exactly, everything the
//! drawing backend needs — series statistics, the coordinate system, the
//! label-area and font sizes — and the unverified drawing layer only maps the
//! resulting rationals onto the canvas. All y-axis quantities are rationals
//! over the series' common denominator, so the mean and the axis bound carry
//! no rounding at all.

use vstd::prelude::*;
use crate::error::PipelineError;
use crate::extract::Resolution;
use crate::transform::{SampleUnit, ScaledSeries};

verus! {

/// The sum of a sequence of samples.
pub open spec fn seq_sum(s: Seq<u64>) -> int
    decreases s.len(),
{
    if s.len() == 0 {
        0
    } else {
        seq_sum(s.drop_last()) + s.last()
    }
}

/// The greatest sample of a sequence (zero for the empty sequence; every
/// sample is non-negative, so on a non-empty sequence this is the maximum).
pub open spec fn seq_max(s: Seq<u64>) -> int
    decreases s.len(),
{
    if s.len() == 0 {
        0
    } else if s.last() as int >= seq_max(s.drop_last()) {
        s.last() as int
    } else {
        seq_max(s.drop_last())
    }
}

/// Everything the drawing backend needs to render one series.
///
/// The y-axis quantities are exact rationals: the mean is
/// `mean_num / mean_den` and the axis upper bound is
/// `y_upper_num / y_upper_den`. The upper bound is six fifths (1.2 times) of
/// the greatest sample — a deliberate 20% visual headroom above the data, not
/// a computed statistic.
#[derive(Clone, Copy, Debug)]
pub struct ChartLayout {
    /// Upper end of the x-axis domain: the last sample's index.
    pub x_max: usize,
    /// Numerator of the greatest sample, over `den`.
    pub max_num: u64,
    /// Common denominator of the samples, carried over from the series.
    pub den: u64,
    /// Numerator of the arithmetic mean: the sum of all sample numerators.
    pub mean_num: u128,
    /// Denominator of the arithmetic mean: sample count times `den`.
    pub mean_den: u128,
    /// Numerator of the y-axis upper bound: six times the greatest numerator.
    pub y_upper_num: u128,
    /// Denominator of the y-axis upper bound: five times `den`.
    pub y_upper_den: u128,
    /// Pixels reserved at the left edge for axis labels: 10% of canvas width.
    pub left_label_width: u32,
    /// Pixels reserved at the bottom edge for axis labels: 10% of canvas height.
    pub bottom_label_height: u32,
    /// Label font height: 3% of canvas height.
    pub label_font_height: u32,
    /// The unit the y-axis is labelled with.
    pub unit: SampleUnit,
}

/// Plan the chart for a series on a given canvas.
///
/// An empty series has no maximum and no mean, so it is rejected; for a
/// non-empty series the layout carries the exact maximum, the exact
/// arithmetic mean `sum / (count * den)`, the y-axis domain
/// `[0, 6 * max / (5 * den)]`, the x-axis domain `[0, count - 1]`, and the
/// fixed canvas fractions for labels and font.
pub fn plan_chart(series: &ScaledSeries, canvas: &Resolution) -> (r: Result<
    ChartLayout,
    PipelineError,
>)
    requires
        series.wf(),
    ensures
        (r is Err) <==> series.values@.len() == 0,
        r is Err ==> r == Err::<ChartLayout, PipelineError>(PipelineError::EmptySeries),
        r matches Ok(l) ==> {
            &&& l.x_max == series.values@.len() - 1
            &&& l.max_num == seq_max(series.values@)
            &&& l.den == series.den
            &&& l.mean_num == seq_sum(series.values@)
            &&& l.mean_den == series.values@.len() * series.den
            &&& l.y_upper_num == 6 * seq_max(series.values@)
            &&& l.y_upper_den == 5 * series.den
            &&& l.left_label_width == canvas.width / 10
            &&& l.bottom_label_height == canvas.height / 10
            &&& l.label_font_height == 3 * (canvas.height as int) / 100
            &&& l.unit == series.unit
        },
{
    let n = series.values.len();
    if n == 0 {
        return Err(PipelineError::EmptySeries);
    }
    let mut sum: u128 = 0;
    let mut max: u64 = 0;
    let mut i: usize = 0;
    while i < n
        invariant
            0 <= i <= n,
            n == series.values@.len(),
            sum == seq_sum(series.values@.subrange(0, i as int)),
            sum <= (i as int) * (u64::MAX as int),
            max as int == seq_max(series.values@.subrange(0, i as int)),
        decreases n - i,
    {
        let v = series.values[i];
        proof {
            assert(series.values@.subrange(0, i + 1 as int).drop_last() =~= series.values@.subrange(
                0,
                i as int,
            ));
            assert(series.values@.subrange(0, i + 1 as int).last() == series.values@[i as int]);
            assert((i as int) * (u64::MAX as int) + (u64::MAX as int) == ((i + 1) as int) * (
            u64::MAX as int));
            assert(((i + 1) as int) * (u64::MAX as int) <= u128::MAX) by (nonlinear_arith)
                requires
                    0 <= i,
                    i + 1 <= usize::MAX,
            ;
        }
        sum = sum + (v as u128);
        if v > max {
            max = v;
        }
        i = i + 1;
    }
    proof {
        assert(series.values@.subrange(0, n as int) =~= series.values@);
        assert((n as int) * (series.den as int) <= u128::MAX) by (nonlinear_arith)
            requires
                n <= usize::MAX,
                series.den <= u64::MAX,
        ;
    }
    let mean_den: u128 = (n as u128) * (series.den as u128);
    let font_raw: u64 = 3 * (canvas.height as u64) / 100;
    Ok(
        ChartLayout {
            x_max: n - 1,
            max_num: max,
            den: series.den,
            mean_num: sum,
            mean_den,
            y_upper_num: 6 * (max as u128),
            y_upper_den: 5 * (series.den as u128),
            left_label_width: canvas.width / 10,
            bottom_label_height: canvas.height / 10,
            label_font_height: font_raw as u32,
            unit: series.unit,
        },
    )
}

/// The greatest sample of a non-empty sequence really is its maximum: it is
/// one of the samples, and no sample exceeds it. Together with `plan_chart`'s
/// contract this pins the y-axis upper bound to six fifths of the true
/// maximum and the mean's numerator to the true sum.
pub proof fn lemma_seq_max_is_max(s: Seq<u64>)
    requires
        s.len() > 0,
    ensures
        exists|i: int| 0 <= i < s.len() && s[i] as int == seq_max(s),
        forall|i: int| 0 <= i < s.len() ==> s[i] as int <= seq_max(s),
    decreases s.len(),
{
    if s.len() == 1 {
        assert(s.drop_last().len() == 0);
        assert(s[0] as int == seq_max(s));
    } else {
        lemma_seq_max_is_max(s.drop_last());
        assert(forall|i: int| 0 <= i < s.len() - 1 ==> s[i] == s.drop_last()[i]);
        if s.last() as int >= seq_max(s.drop_last()) {
            assert(s[s.len() - 1] as int == seq_max(s));
        } else {
            let j = choose|j: int|
                0 <= j < s.drop_last().len() && s.drop_last()[j] as int == seq_max(s.drop_last());
            assert(s[j] as int == seq_max(s));
        }
    }
}

/// The polyline of the data series: one point per sample, the sample's index
/// on the x-axis and its numerator (over the series' denominator) on the
/// y-axis.
pub fn data_points(series: &ScaledSeries) -> (r: Vec<(usize, u64)>)
    ensures
        r@.len() == series.values@.len(),
        forall|i: int|
            0 <= i < r@.len() ==> r@[i] == (i as usize, series.values@[i]),
{
    let mut out: Vec<(usize, u64)> = Vec::new();
    let mut i: usize = 0;
    while i < series.values.len()
        invariant
            0 <= i <= series.values@.len(),
            out@.len() == i,
            forall|j: int| 0 <= j < i ==> out@[j] == (j as usize, series.values@[j]),
        decreases series.values@.len() - i,
    {
        out.push((i, series.values[i]));
        i = i + 1;
    }
    out
}

} // verus!
