//! Metric transformation.
//!
//! The extractor's samples are encoded sizes in bits. The transformer either
//! passes them through unchanged or normalizes them to bits per pixel by
//! dividing each sample by the captured frame's pixel count. Division is kept
//! exact: a [`ScaledSeries`] carries the integer numerators together with one
//! common positive denominator, so sample `i` denotes the rational
//! `values[i] / den` and no precision is lost before rendering.

use vstd::prelude::*;
use crate::error::PipelineError;
use crate::extract::FrameSeries;

verus! {

/// The unit the samples are expressed in, a tagged variant rather than a
/// string threaded through the rendering code.
#[derive(Clone, Copy, Debug, PartialEq, Eq, Structural)]
pub enum SampleUnit {
    /// Raw encoded size per frame.
    Bit,
    /// Encoded size per frame divided by the frame's pixel count.
    BitPerPixel,
}

impl SampleUnit {
    /// The y-axis label for this unit.
    pub fn label(&self) -> (r: &'static str)
        ensures
            self is Bit ==> r@ == "bit"@,
            self is BitPerPixel ==> r@ == "bit per pixel"@,
    {
        match self {
            SampleUnit::Bit => "bit",
            SampleUnit::BitPerPixel => "bit per pixel",
        }
    }
}

/// A series of exact rational samples with one common denominator: sample `i`
/// denotes `values[i] / den`.
#[derive(Clone, Debug)]
pub struct ScaledSeries {
    pub values: Vec<u64>,
    pub den: u64,
    pub unit: SampleUnit,
}

impl ScaledSeries {
    /// A denominator is a pixel count or one, never zero.
    pub open spec fn wf(self) -> bool {
        self.den > 0
    }

    /// The numerator of sample `i`.
    pub open spec fn sample_num(self, i: int) -> int {
        self.values@[i] as int
    }

    /// The common denominator of all samples.
    pub open spec fn sample_den(self) -> int {
        self.den as int
    }

    /// Un-normalize: scale each sample's rational value back by the common
    /// denominator. Because normalization kept the numerators exact, this
    /// recovers the integer samples exactly.
    pub fn denormalized(&self) -> (r: Vec<u64>)
        requires
            self.wf(),
        ensures
            r@ == self.values@,
    {
        let mut out: Vec<u64> = Vec::new();
        let mut i: usize = 0;
        while i < self.values.len()
            invariant
                0 <= i <= self.values@.len(),
                self.wf(),
                out@ == self.values@.subrange(0, i as int),
            decreases self.values@.len() - i,
        {
            let v = self.values[i];
            proof {
                assert((v as int) * (self.den as int) <= u128::MAX) by (nonlinear_arith)
                    requires
                        v <= u64::MAX,
                        self.den <= u64::MAX,
                ;
                assert(((v as int) * (self.den as int)) / (self.den as int) == v as int)
                    by (nonlinear_arith)
                    requires
                        self.den > 0,
                ;
            }
            let scaled: u128 = (v as u128) * (self.den as u128);
            let back: u128 = scaled / (self.den as u128);
            out.push(back as u64);
            proof {
                assert(out@ =~= self.values@.subrange(0, i + 1 as int));
            }
            i = i + 1;
        }
        proof {
            assert(out@ =~= self.values@);
        }
        out
    }
}

/// Equality of two rationals `n1 / d1` and `n2 / d2` by cross-multiplication
/// (meaningful for positive denominators).
pub open spec fn rat_eq(n1: int, d1: int, n2: int, d2: int) -> bool {
    n1 * d2 == n2 * d1
}

/// Produce the series to render and the unit it is expressed in.
///
/// Without normalization the samples pass through unchanged with denominator
/// one. With normalization each sample denotes its value divided by the
/// captured pixel count; a pixel count of zero means no frame ever decoded,
/// and normalizing against zero pixels is undefined, so it is rejected
/// rather than producing meaningless samples.
pub fn transform(series: FrameSeries, normalize: bool) -> (r: Result<
    ScaledSeries,
    PipelineError,
>)
    ensures
        (r is Err) <==> (normalize && series.pixel_count() == 0),
        r is Err ==> r == Err::<ScaledSeries, PipelineError>(PipelineError::InvalidNormalization),
        r matches Ok(s) ==> {
            &&& s.wf()
            &&& s.values@ == series.values@
            &&& (normalize ==> s.sample_den() == series.pixel_count() && s.unit is BitPerPixel)
            &&& (!normalize ==> s.sample_den() == 1 && s.unit is Bit)
        },
{
    if normalize {
        proof {
            assert((series.width as int) * (series.height as int) <= u64::MAX)
                by (nonlinear_arith)
                requires
                    series.width <= u32::MAX,
                    series.height <= u32::MAX,
            ;
        }
        let pixels: u64 = (series.width as u64) * (series.height as u64);
        if pixels == 0 {
            Err(PipelineError::InvalidNormalization)
        } else {
            Ok(ScaledSeries { values: series.values, den: pixels, unit: SampleUnit::BitPerPixel })
        }
    } else {
        Ok(ScaledSeries { values: series.values, den: 1, unit: SampleUnit::Bit })
    }
}

/// Law: normalizing and then un-normalizing recovers the original series
/// exactly. For every sample of a well-formed scaled series, the rational
/// `sample_num / sample_den` scaled back by `sample_den` equals the original
/// integer sample `sample_num`.
pub proof fn lemma_normalize_round_trip(s: ScaledSeries, i: int)
    requires
        s.wf(),
        0 <= i < s.values@.len(),
    ensures
        rat_eq(s.sample_num(i) * s.sample_den(), s.sample_den(), s.sample_num(i), 1),
{
    assert(s.sample_num(i) * s.sample_den() * 1 == s.sample_num(i) * s.sample_den());
}

} // verus!
