use wavespec::config::{
    DecodeConfig, DecodeError, RangeSeed, ValidationMode, DATA_TAG, FORMAT_TAG, RIFF_MARKER,
    STANDARD_WINDOW_LEN, WAVE_TAG,
};
use wavespec::cursor::ByteCursor;
use wavespec::header::{parse_header, HEADER_LEN};
use wavespec::pipeline::decode_window;
use wavespec::samples::extract_samples;
use wavespec::spectrum::parity_aggregate_spectrum;

fn put_u16(v: &mut Vec<u8>, x: u16) {
    v.extend_from_slice(&x.to_le_bytes());
}

fn put_u32(v: &mut Vec<u8>, x: u32) {
    v.extend_from_slice(&x.to_le_bytes());
}

fn put_i24(v: &mut Vec<u8>, x: i32) {
    v.extend_from_slice(&x.to_le_bytes()[..3]);
}

fn header_bytes(type_tag: &[u8; 4], data_size: u32) -> Vec<u8> {
    let mut v = Vec::new();
    put_u32(&mut v, 36 + data_size);
    v.extend_from_slice(type_tag);
    v.extend_from_slice(b"fmt ");
    put_u32(&mut v, 16);
    put_u16(&mut v, 1);
    put_u16(&mut v, 2);
    put_u32(&mut v, 44100);
    put_u32(&mut v, 44100 * 6);
    put_u16(&mut v, 6);
    put_u16(&mut v, 24);
    v.extend_from_slice(b"data");
    put_u32(&mut v, data_size);
    v
}

fn container(frames: &[(i32, i32)]) -> Vec<u8> {
    let mut v = vec![0u8, 7, 7];
    v.extend_from_slice(b"RIFF");
    v.extend_from_slice(&header_bytes(b"WAVE", (frames.len() * 6) as u32));
    for &(l, r) in frames {
        put_i24(&mut v, l);
        put_i24(&mut v, r);
    }
    v
}

#[test]
fn standard_profile() {
    let c = DecodeConfig::standard();
    assert_eq!(c.sync_marker, RIFF_MARKER);
    assert_eq!(c.type_tag, WAVE_TAG);
    assert_eq!(c.format_tag, FORMAT_TAG);
    assert_eq!(c.data_tag, DATA_TAG);
    assert_eq!(c.window_len, STANDARD_WINDOW_LEN);
    assert_eq!(c.window_len, 44100 * 4);
    assert_eq!(c.lead_in, 0);
    assert_eq!(c.validation, ValidationMode::Lenient);
    assert_eq!(c.range_seed, RangeSeed::Zero);
    assert_eq!(RIFF_MARKER.to_be_bytes(), *b"RIFF");
    assert_eq!(WAVE_TAG.to_be_bytes(), *b"WAVE");
    assert_eq!(FORMAT_TAG.to_be_bytes(), *b"fmt ");
    assert_eq!(DATA_TAG.to_be_bytes(), *b"data");
}

#[test]
fn header_fields_in_order() {
    let b = header_bytes(b"WAVE", 12);
    let cfg = DecodeConfig::wave(2, 0);
    let mut c = ByteCursor::new(&b);
    let h = parse_header(&mut c, &cfg).unwrap();
    assert_eq!(c.position(), HEADER_LEN);
    assert_eq!(h.declared_size, 48);
    assert!(h.is_recognized_type);
    assert!(h.is_format_chunk_valid);
    assert_eq!(h.format_chunk_len, 16);
    assert_eq!(h.audio_format, 1);
    assert_eq!(h.channel_count, 2);
    assert_eq!(h.sample_rate, 44100);
    assert_eq!(h.byte_rate, 264600);
    assert_eq!(h.block_align, 6);
    assert_eq!(h.bits_per_sample, 24);
    assert!(h.is_data_chunk_valid);
    assert_eq!(h.data_size, 12);
}

#[test]
fn lenient_header_records_tag_mismatch() {
    let b = header_bytes(b"AVI ", 0);
    let cfg = DecodeConfig::wave(0, 0);
    let mut c = ByteCursor::new(&b);
    let h = parse_header(&mut c, &cfg).unwrap();
    assert!(!h.is_recognized_type);
    assert!(h.is_format_chunk_valid);
    assert!(h.is_data_chunk_valid);
}

#[test]
fn strict_header_rejects_tag_mismatch() {
    let b = header_bytes(b"AVI ", 0);
    let mut cfg = DecodeConfig::wave(0, 0);
    cfg.validation = ValidationMode::Strict;
    let mut c = ByteCursor::new(&b);
    assert_eq!(parse_header(&mut c, &cfg), Err(DecodeError::TagMismatch));
    let good = header_bytes(b"WAVE", 0);
    let mut c = ByteCursor::new(&good);
    assert!(parse_header(&mut c, &cfg).is_ok());
}

#[test]
fn truncated_header() {
    let b = header_bytes(b"WAVE", 0);
    let cut = &b[..HEADER_LEN - 1];
    let mut c = ByteCursor::new(cut);
    assert_eq!(parse_header(&mut c, &DecodeConfig::wave(0, 0)), Err(DecodeError::TruncatedData));
    assert_eq!(c.position(), 0);
}

#[test]
fn mixing_halves_toward_zero() {
    let mut b = Vec::new();
    for &(l, r) in &[(3, 3), (-3, -3), (5, -1), (8388607, 8388607), (-8388608, -8388608)] {
        put_i24(&mut b, l);
        put_i24(&mut b, r);
    }
    let mut c = ByteCursor::new(&b);
    let m = extract_samples(&mut c, &DecodeConfig::wave(5, 0)).unwrap();
    assert_eq!(m, vec![2, -2, 2, 8388606, -8388608]);
}

#[test]
fn lead_in_is_skipped() {
    let mut b = vec![0xAAu8, 0xBB];
    put_i24(&mut b, 10);
    put_i24(&mut b, 20);
    let mut c = ByteCursor::new(&b);
    let m = extract_samples(&mut c, &DecodeConfig::wave(1, 2)).unwrap();
    assert_eq!(m, vec![15]);
}

#[test]
fn too_few_frames() {
    let mut b = Vec::new();
    put_i24(&mut b, 10);
    put_i24(&mut b, 20);
    put_i24(&mut b, 30);
    let mut c = ByteCursor::new(&b);
    assert_eq!(extract_samples(&mut c, &DecodeConfig::wave(2, 0)), Err(DecodeError::TruncatedData));
    let mut c = ByteCursor::new(&b);
    assert_eq!(extract_samples(&mut c, &DecodeConfig::wave(0, 10)), Err(DecodeError::TruncatedData));
}

#[test]
fn missing_marker() {
    let b = vec![1u8, 2, 3, 4, 5, 6, 7, 8];
    assert_eq!(decode_window(&b, &DecodeConfig::wave(0, 0)).unwrap_err(), DecodeError::HeaderNotFound);
}

#[test]
fn truncated_window() {
    let b = container(&[(1, 1), (2, 2)]);
    assert_eq!(decode_window(&b, &DecodeConfig::wave(3, 0)).unwrap_err(), DecodeError::TruncatedData);
    let mut cfg = DecodeConfig::wave(2, 0);
    cfg.data_tag = 0x4C49_5354;
    cfg.validation = ValidationMode::Strict;
    assert_eq!(decode_window(&b, &cfg).unwrap_err(), DecodeError::TagMismatch);
}

#[test]
fn zero_frames_end_to_end() {
    let n = 16;
    let b = container(&vec![(0, 0); n]);
    let w = decode_window(&b, &DecodeConfig::wave(n, 0)).unwrap();
    assert!(w.header.is_recognized_type);
    assert!(w.header.is_format_chunk_valid);
    assert!(w.header.is_data_chunk_valid);
    assert_eq!(w.header.channel_count, 2);
    assert_eq!(w.header.bits_per_sample, 24);
    assert_eq!(w.header.sample_rate, 44100);
    assert_eq!(w.mixed, vec![0; n]);
    assert_eq!(w.signal.numerators, vec![0; n]);
    assert_eq!(w.signal.denominator, 1);
    let spectrum = parity_aggregate_spectrum(&w.signal, n);
    assert_eq!(spectrum, vec![0u128; n]);
}

#[test]
fn window_end_to_end() {
    let b = container(&[(10, 10), (-30, -10), (41, 0), (7, 8)]);
    let w = decode_window(&b, &DecodeConfig::wave(4, 0)).unwrap();
    assert_eq!(w.mixed, vec![10, -20, 20, 7]);
    assert_eq!(w.signal.denominator, 40);
    assert_eq!(w.signal.numerators, vec![20, -40, 40, 14]);
    assert_eq!(parity_aggregate_spectrum(&w.signal, 2), vec![114u128, 114]);
}

#[test]
fn repeated_runs_agree() {
    let b = container(&[(100, -3), (-77, 12), (5, 5), (0, 9), (-1, -1)]);
    let cfg = DecodeConfig::wave(5, 0);
    let first = decode_window(&b, &cfg).unwrap();
    let copy = b.clone();
    let second = decode_window(&copy, &cfg).unwrap();
    assert_eq!(first.header, second.header);
    assert_eq!(first.mixed, second.mixed);
    assert_eq!(first.signal.numerators, second.signal.numerators);
    assert_eq!(first.signal.denominator, second.signal.denominator);
    assert_eq!(parity_aggregate_spectrum(&first.signal, 5), parity_aggregate_spectrum(&second.signal, 5));
}
