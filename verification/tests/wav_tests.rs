use diy_typeless_core::errors::CoreError;
use diy_typeless_core::wav::{
    decode_wav_to_samples, max_int_amplitude, parse_wav_header, wav_bytes_from_samples,
};

#[test]
fn wav_encoding_emits_the_canonical_header() {
    let samples: Vec<i16> = vec![0, -1];
    let bytes = wav_bytes_from_samples(&samples).expect("encodes");
    assert_eq!(bytes.len(), 48);
    assert_eq!(&bytes[0..4], b"RIFF");
    assert_eq!(&bytes[4..8], &(40u32).to_le_bytes());
    assert_eq!(&bytes[8..12], b"WAVE");
    assert_eq!(&bytes[12..16], b"fmt ");
    assert_eq!(&bytes[16..20], &(16u32).to_le_bytes());
    assert_eq!(&bytes[20..22], &(1u16).to_le_bytes()); // PCM
    assert_eq!(&bytes[22..24], &(1u16).to_le_bytes()); // mono
    assert_eq!(&bytes[24..28], &(16000u32).to_le_bytes());
    assert_eq!(&bytes[28..32], &(32000u32).to_le_bytes());
    assert_eq!(&bytes[32..34], &(2u16).to_le_bytes());
    assert_eq!(&bytes[34..36], &(16u16).to_le_bytes());
    assert_eq!(&bytes[36..40], b"data");
    assert_eq!(&bytes[40..44], &(4u32).to_le_bytes());
    assert_eq!(&bytes[44..48], &[0x00, 0x00, 0xff, 0xff]);
}

#[test]
fn wav_encode_then_decode_returns_the_samples() {
    let samples: Vec<i16> = vec![0, 1, -1, 32767, -32768, 1234, -4321];
    let bytes = wav_bytes_from_samples(&samples).expect("encodes");
    let decoded = decode_wav_to_samples(&bytes).expect("decodes");
    assert_eq!(decoded, samples);
}

#[test]
fn wav_parse_reads_the_declared_format() {
    let bytes = wav_bytes_from_samples(&vec![5, 6, 7]).expect("encodes");
    let (info, data_off, data_len) = parse_wav_header(&bytes).expect("parses");
    assert_eq!(info.format_tag, 1);
    assert_eq!(info.channels, 1);
    assert_eq!(info.sample_rate, 16000);
    assert_eq!(info.bits_per_sample, 16);
    assert_eq!(data_off, 44);
    assert_eq!(data_len, 6);
}

#[test]
fn wav_decode_rejects_garbage() {
    let garbage: Vec<u8> = vec![1, 2, 3, 4, 5];
    match decode_wav_to_samples(&garbage) {
        Err(CoreError::AudioProcessing(m)) => assert!(m.starts_with("Invalid WAV")),
        other => panic!("unexpected: {:?}", other),
    }
}

#[test]
fn wav_decode_rejects_other_sample_rates() {
    let mut bytes = wav_bytes_from_samples(&vec![1, 2]).expect("encodes");
    // rewrite the sample-rate field to 44100
    bytes[24..28].copy_from_slice(&(44100u32).to_le_bytes());
    match decode_wav_to_samples(&bytes) {
        Err(CoreError::AudioProcessing(m)) => assert_eq!(m, "Expected 16kHz, got 44100Hz"),
        other => panic!("unexpected: {:?}", other),
    }
}

#[test]
fn wav_decode_rejects_float_samples() {
    let mut bytes = wav_bytes_from_samples(&vec![1, 2]).expect("encodes");
    // rewrite the format tag to IEEE float
    bytes[20..22].copy_from_slice(&(3u16).to_le_bytes());
    match decode_wav_to_samples(&bytes) {
        Err(CoreError::AudioProcessing(m)) => assert_eq!(m, "Unsupported sample format"),
        other => panic!("unexpected: {:?}", other),
    }
}

#[test]
fn wav_decode_averages_stereo_to_mono() {
    let mut bytes = wav_bytes_from_samples(&vec![100, 300, -100, -300]).expect("encodes");
    // declare the same payload as two interleaved channels
    bytes[22..24].copy_from_slice(&(2u16).to_le_bytes());
    let decoded = decode_wav_to_samples(&bytes).expect("decodes");
    assert_eq!(decoded, vec![200, -200]);
}

#[test]
fn wav_max_int_amplitude_handles_16_bit_pcm() {
    assert_eq!(max_int_amplitude(16), 32767);
}

#[test]
fn wav_max_int_amplitude_handles_32_bit_pcm() {
    assert_eq!(max_int_amplitude(32), 2_147_483_647);
}

#[test]
fn main_max_int_amplitude_handles_16_bit_pcm() {
    assert_eq!(max_int_amplitude(16), 32767);
}

#[test]
fn main_max_int_amplitude_handles_32_bit_pcm() {
    assert_eq!(max_int_amplitude(32), 2_147_483_647);
}

#[test]
fn max_int_amplitude_caps_the_shift_for_very_wide_samples() {
    assert_eq!(max_int_amplitude(1), 1);
    assert_eq!(max_int_amplitude(64), (1u64 << 62) - 1);
}
