use diy_typeless_core::audio::{downmix_channels, resample_linear, LiveDownsampler, RecorderState};
use diy_typeless_core::errors::CoreError;

#[test]
fn resample_linear_empty_input_returns_empty() {
    let input: Vec<i16> = vec![];
    let result = resample_linear(&input, 16000, 16000);
    assert!(result.is_empty());
}

#[test]
fn resample_linear_same_sample_rate_returns_clone() {
    let input: Vec<i16> = vec![16384, -16384, 8192, -8192];
    let result = resample_linear(&input, 16000, 16000);
    assert_eq!(result, input);
}

#[test]
fn resample_linear_downsample_reduces_length() {
    // 10 samples at 48000 Hz -> 16000 Hz should produce ~3 samples
    let input: Vec<i16> = vec![0, 100, 200, 300, 400, 500, 600, 700, 800, 900];
    let result = resample_linear(&input, 48000, 16000);
    // 48000/16000 = 3.0 ratio, so 10/3 = ~3 samples
    assert_eq!(result.len(), 3);
}

#[test]
fn resample_linear_upsample_increases_length() {
    // 3 samples at 16000 Hz -> 48000 Hz should produce ~9 samples
    let input: Vec<i16> = vec![0, 500, 1000];
    let result = resample_linear(&input, 16000, 48000);
    // 16000/48000 = 0.333 ratio, so 3/0.333 = ~9 samples
    assert_eq!(result.len(), 9);
}

#[test]
fn resample_linear_interpolation_is_linear() {
    // Linear ramp at 48000 Hz -> 24000 Hz keeps interpolated values on
    // the ramp, and the first output sample equals the first input.
    let input: Vec<i16> = vec![0, 16384, 32000];
    let result = resample_linear(&input, 48000, 24000);
    assert!(!result.is_empty());
    assert_eq!(result[0], 0);

    // upsampling the ramp 1:2 puts every odd output at the midpoint
    let ramp: Vec<i16> = vec![0, 1000, 2000];
    let doubled = resample_linear(&ramp, 24000, 48000);
    assert_eq!(doubled.len(), 6);
    assert_eq!(&doubled[..5], &[0, 500, 1000, 1500, 2000]);
}

#[test]
fn capture_f32_mono_copies_directly() {
    let data: Vec<i16> = vec![16384, -16384, 8192, -8192];
    let mixed = downmix_channels(&data, 1);
    assert_eq!(mixed, data);
}

#[test]
fn capture_f32_stereo_averages_channels() {
    // Stereo interleaved: [L0, R0, L1, R1, L2, R2]
    let data: Vec<i16> = vec![0, 1000, 500, 500, 1000, 0];
    let mixed = downmix_channels(&data, 2);
    assert_eq!(mixed, vec![500, 500, 500]);
}

#[test]
fn capture_f32_quad_averages_four_channels() {
    // Quad interleaved: [C0, C1, C2, C3, C0, C1, C2, C3]
    let data: Vec<i16> = vec![0, 400, 800, 1200, 200, 600, 1000, 1400];
    let mixed = downmix_channels(&data, 4);
    assert_eq!(mixed.len(), 2);
    assert_eq!(mixed[0], 600);
    assert_eq!(mixed[1], 800);
}

#[test]
fn downmix_divides_a_trailing_partial_frame_by_the_full_count() {
    let data: Vec<i16> = vec![300, 300, 300, 600];
    let mixed = downmix_channels(&data, 3);
    // [avg(300,300,300), 600 / 3]
    assert_eq!(mixed, vec![300, 200]);
}

#[test]
fn recorder_lifecycle_rejects_double_start_and_idle_stop() {
    let mut recorder = RecorderState::new();
    assert!(!recorder.is_active());
    assert_eq!(recorder.stop(100), Err(CoreError::RecordingNotActive));
    assert!(recorder.start().is_ok());
    assert!(recorder.is_active());
    assert_eq!(recorder.start(), Err(CoreError::RecordingAlreadyActive));
    assert!(recorder.is_active());
    assert_eq!(recorder.stop(480), Ok(()));
    assert!(!recorder.is_active());
    // a device that could not be opened rolls the start back
    assert!(recorder.start().is_ok());
    recorder.cancel_start();
    assert!(!recorder.is_active());
    // an active recording that captured nothing is a capture failure
    assert!(recorder.start().is_ok());
    assert_eq!(
        recorder.stop(0),
        Err(CoreError::AudioCapture("No audio captured".to_string()))
    );
    assert!(!recorder.is_active());
}

#[test]
fn live_downsampler_keeps_exactly_the_resampled_count() {
    let mut decimator = LiveDownsampler::new(48000, 16000);
    let mut kept: Vec<i16> = Vec::new();
    for i in 0..10i16 {
        if let Some(s) = decimator.push_sample(i * 10) {
            kept.push(s);
        }
    }
    // floor(10 * 16000 / 48000) = 3 samples survive, in order
    assert_eq!(kept.len(), 3);
    assert_eq!(kept, vec![20, 50, 80]);
}
