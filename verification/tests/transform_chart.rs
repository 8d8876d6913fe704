use bitrate_chart::chart::{data_points, plan_chart};
use bitrate_chart::extract::{FrameSeries, Resolution};
use bitrate_chart::transform::{transform, SampleUnit, ScaledSeries};
use bitrate_chart::PipelineError;

fn series(width: u32, height: u32, values: Vec<u64>) -> FrameSeries {
    FrameSeries { width, height, values }
}

#[test]
fn raw_transform_passes_samples_through() {
    let out = transform(series(320, 180, vec![5068, 206, 174]), false).unwrap();
    assert_eq!(out.values, vec![5068, 206, 174]);
    assert_eq!(out.den, 1);
    assert_eq!(out.unit, SampleUnit::Bit);
    assert_eq!(out.unit.label(), "bit");
}

#[test]
fn normalization_divides_by_the_pixel_count() {
    let out = transform(series(320, 180, vec![5068, 206, 174]), true).unwrap();
    // Sample i denotes values[i] / den exactly: 5068 / 57600 bits per pixel.
    assert_eq!(out.values, vec![5068, 206, 174]);
    assert_eq!(out.den, 320 * 180);
    assert_eq!(out.unit, SampleUnit::BitPerPixel);
    assert_eq!(out.unit.label(), "bit per pixel");
}

#[test]
fn normalization_with_zero_pixels_is_rejected() {
    // Zero frames decoded: dimensions stay 0x0 and normalizing is undefined.
    let r = transform(series(0, 0, Vec::new()), true);
    assert_eq!(r.unwrap_err(), PipelineError::InvalidNormalization);
}

#[test]
fn zero_pixels_without_normalization_is_fine() {
    let out = transform(series(0, 0, Vec::new()), false).unwrap();
    assert!(out.values.is_empty());
    assert_eq!(out.den, 1);
}

#[test]
fn denormalizing_recovers_the_original_samples() {
    // Normalize, then scale back by the pixel count: exact round trip.
    let out = transform(series(320, 180, vec![5068, 206, 174]), true).unwrap();
    assert_eq!(out.denormalized(), vec![5068, 206, 174]);
}

#[test]
fn planned_chart_carries_exact_mean_and_headroom() {
    let s = ScaledSeries { values: vec![3000, 2000, 1500], den: 1, unit: SampleUnit::Bit };
    let canvas = Resolution { width: 1280, height: 960 };
    let l = plan_chart(&s, &canvas).unwrap();
    assert_eq!(l.x_max, 2);
    assert_eq!(l.max_num, 3000);
    assert_eq!(l.den, 1);
    // mean = 6500 / 3 exactly
    assert_eq!(l.mean_num, 6500);
    assert_eq!(l.mean_den, 3);
    // y-axis upper bound = 6 * 3000 / 5 = 1.2 * 3000
    assert_eq!(l.y_upper_num, 18000);
    assert_eq!(l.y_upper_den, 5);
    assert_eq!(l.left_label_width, 128);
    assert_eq!(l.bottom_label_height, 96);
    assert_eq!(l.label_font_height, 28);
    assert_eq!(l.unit, SampleUnit::Bit);
}

#[test]
fn planned_chart_keeps_the_series_denominator() {
    let s = ScaledSeries { values: vec![10, 20], den: 57600, unit: SampleUnit::BitPerPixel };
    let canvas = Resolution { width: 1920, height: 1080 };
    let l = plan_chart(&s, &canvas).unwrap();
    assert_eq!(l.max_num, 20);
    assert_eq!(l.den, 57600);
    assert_eq!(l.mean_num, 30);
    assert_eq!(l.mean_den, 2 * 57600);
    assert_eq!(l.y_upper_num, 120);
    assert_eq!(l.y_upper_den, 5 * 57600);
    assert_eq!(l.label_font_height, 32);
}

#[test]
fn planning_an_empty_series_is_rejected() {
    let s = ScaledSeries { values: Vec::new(), den: 1, unit: SampleUnit::Bit };
    let canvas = Resolution { width: 1920, height: 1080 };
    let r = plan_chart(&s, &canvas);
    assert_eq!(r.unwrap_err(), PipelineError::EmptySeries);
}

#[test]
fn data_points_enumerate_the_samples() {
    let s = ScaledSeries { values: vec![7, 8, 9], den: 1, unit: SampleUnit::Bit };
    assert_eq!(data_points(&s), vec![(0, 7), (1, 8), (2, 9)]);
}

#[test]
fn every_error_has_a_message() {
    assert_eq!(PipelineError::MediaOpen.describe(), "failed to open input as a media container");
    assert_eq!(PipelineError::NoVideoStream.describe(), "failed to find video stream");
    assert_eq!(PipelineError::DecoderInit.describe(), "failed to initialize a video decoder");
    assert_eq!(
        PipelineError::InvalidNormalization.describe(),
        "cannot normalize per pixel: no frame was decoded"
    );
    assert_eq!(PipelineError::EmptySeries.describe(), "cannot render an empty series");
    assert_eq!(
        PipelineError::RenderIo.describe(),
        "failed to write the chart to the output path"
    );
}
