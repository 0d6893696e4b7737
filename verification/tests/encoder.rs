//! Tests of the PCM container writer and its header.

use capture_engine::errors::RecorderError;
use capture_engine::wav::{make_wav_header, parse_wav_header, WavWriter};

/// Little-endian bytes of 16-bit PCM silence, one pair per sample.
fn silence_bytes(samples: usize) -> Vec<u8> {
    let mut out: Vec<u8> = Vec::new();
    for _ in 0..samples {
        let level: i16 = (0.0f32 * 32767.0f32) as i16;
        out.extend_from_slice(&level.to_le_bytes());
    }
    out
}

#[test]
fn wav_header_exact_bytes() {
    let h = make_wav_header(16000, 1, 96000);
    let mut expected: Vec<u8> = Vec::new();
    expected.extend_from_slice(b"RIFF");
    expected.extend_from_slice(&96036u32.to_le_bytes());
    expected.extend_from_slice(b"WAVE");
    expected.extend_from_slice(b"fmt ");
    expected.extend_from_slice(&16u32.to_le_bytes());
    expected.extend_from_slice(&1u16.to_le_bytes()); // PCM
    expected.extend_from_slice(&1u16.to_le_bytes()); // mono
    expected.extend_from_slice(&16000u32.to_le_bytes());
    expected.extend_from_slice(&32000u32.to_le_bytes()); // byte rate
    expected.extend_from_slice(&2u16.to_le_bytes()); // block align
    expected.extend_from_slice(&16u16.to_le_bytes()); // bits per sample
    expected.extend_from_slice(b"data");
    expected.extend_from_slice(&96000u32.to_le_bytes());
    assert_eq!(h, expected);
}

#[test]
fn wav_header_parse_round_trip() {
    let h = make_wav_header(44100, 2, 1234 * 2);
    assert_eq!(parse_wav_header(&h), Some((44100, 2, 2468)));
}

#[test]
fn parse_rejects_bad_magic() {
    let mut h = make_wav_header(16000, 1, 0);
    h[0] = b'X';
    assert_eq!(parse_wav_header(&h), None);
}

#[test]
fn parse_rejects_short_buffer() {
    let h = make_wav_header(16000, 1, 0);
    let short = h[..43].to_vec();
    assert_eq!(parse_wav_header(&short), None);
}

#[test]
fn parse_rejects_inconsistent_byte_rate() {
    let mut h = make_wav_header(16000, 1, 0);
    // Corrupt the byte-rate field at offset 28: it no longer equals
    // rate * channels * 2.
    h[28] = h[28].wrapping_add(1);
    assert_eq!(parse_wav_header(&h), None);
}

#[test]
fn writer_accumulates_and_finalizes() {
    let mut w = WavWriter::new(16000, 1).unwrap();
    assert_eq!(w.sample_rate(), 16000);
    assert_eq!(w.channels(), 1);
    assert_eq!(w.total_samples(), 0);
    assert!(!w.is_finalized());
    w.write_samples(&silence_bytes(8000)).unwrap();
    w.write_samples(&silence_bytes(8000)).unwrap();
    assert_eq!(w.total_samples(), 16000);
    w.finalize().unwrap();
    assert!(w.is_finalized());
    let (rate, channels, millis) = w.get_metadata();
    assert_eq!(rate, 16000);
    assert_eq!(channels, 1);
    assert_eq!(millis, 1000);
}

#[test]
fn writer_rejects_write_after_finalize() {
    let mut w = WavWriter::new(16000, 1).unwrap();
    w.write_samples(&silence_bytes(4)).unwrap();
    w.finalize().unwrap();
    let r = w.write_samples(&silence_bytes(4));
    assert_eq!(r, Err(RecorderError::InvalidState));
    assert_eq!(w.total_samples(), 4);
}

#[test]
fn writer_rejects_odd_buffer() {
    let mut w = WavWriter::new(16000, 1).unwrap();
    let r = w.write_samples(&[0u8; 3]);
    assert_eq!(r, Err(RecorderError::Configuration));
    assert_eq!(w.total_samples(), 0);
}

#[test]
fn writer_rejects_zero_rate() {
    assert!(matches!(WavWriter::new(0, 1), Err(RecorderError::Configuration)));
}

#[test]
fn writer_rejects_zero_channels() {
    assert!(matches!(WavWriter::new(16000, 0), Err(RecorderError::Configuration)));
}

#[test]
fn writer_finalize_idempotent() {
    let mut w = WavWriter::new(8000, 1).unwrap();
    w.write_samples(&silence_bytes(8000)).unwrap();
    w.finalize().unwrap();
    w.finalize().unwrap();
    let (_, _, millis) = w.get_metadata();
    assert_eq!(millis, 1000);
}

#[test]
fn writer_duration_rounds_down() {
    let mut w = WavWriter::new(16000, 1).unwrap();
    // 100 samples at 16 kHz are 6.25 ms; the writer reports whole
    // milliseconds, rounded down.
    w.write_samples(&silence_bytes(100)).unwrap();
    assert_eq!(w.duration_millis(), 6);
}

#[test]
fn container_header_matches_data() {
    let mut w = WavWriter::new(16000, 1).unwrap();
    w.write_samples(&silence_bytes(250)).unwrap();
    w.finalize().unwrap();
    let bytes = w.container_bytes();
    assert_eq!(bytes.len(), 44 + 500);
    let (rate, channels, data_len) = parse_wav_header(&bytes).unwrap();
    assert_eq!(rate, 16000);
    assert_eq!(channels, 1);
    assert_eq!(data_len as usize, bytes.len() - 44);
}

#[test]
fn error_messages_name_each_kind() {
    assert!(!RecorderError::Configuration.message().is_empty());
    assert!(!RecorderError::InvalidState.message().is_empty());
    assert!(!RecorderError::Io.message().is_empty());
    assert!(!RecorderError::Lock.message().is_empty());
}
