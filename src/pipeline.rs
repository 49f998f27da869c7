//! The whole decoding run: locate, parse, extract, normalize.
use crate::config::{DecodeConfig, DecodeError};
use crate::cursor::ByteCursor;
use crate::header::{parse_header, parse_header_spec, ContainerHeader, HEADER_LEN};
use crate::locate::{locate, seek_wav_header};
use crate::normalize::{
    normalize_data, normalized_numerators, range_max, range_min, scaled_denominator,
    NormalizedSignal,
};
use crate::samples::{extract_samples, extract_spec};
use vstd::prelude::*;

verus! {

/// What one run yields from a buffer.
#[derive(Debug)]
pub struct DecodedWindow {
    pub header: ContainerHeader,
    pub mixed: Vec<i32>,
    pub signal: NormalizedSignal,
}

/// The value of a decoded window: header, mixed samples, normalized numerators and
/// their denominator.
pub type WindowView = (ContainerHeader, Seq<i32>, Seq<i64>, int);

/// The outcome of decoding `b` under `cfg`.
pub open spec fn decode_spec(b: Seq<u8>, cfg: DecodeConfig) -> Result<WindowView, DecodeError> {
    let p = locate(b, cfg.sync_marker);
    if p >= b.len() {
        Err(DecodeError::HeaderNotFound)
    } else {
        match parse_header_spec(b, p, cfg) {
            Err(e) => Err(e),
            Ok(h) => match extract_spec(b, p + HEADER_LEN, cfg) {
                Err(e) => Err(e),
                Ok(m) => Ok(
                    (
                        h,
                        m,
                        normalized_numerators(m, cfg.range_seed),
                        scaled_denominator(
                            range_min(m, cfg.range_seed),
                            range_max(m, cfg.range_seed),
                        ),
                    ),
                ),
            },
        }
    }
}

/// The value of a decoded window.
pub open spec fn window_view(w: DecodedWindow) -> WindowView {
    (w.header, w.mixed@, w.signal.numerators@, w.signal.denominator as int)
}

/// Decodes the analysis window of `bytes`: finds the synchronization marker, parses
/// the header after it, reads and mixes the window's frames and normalizes them.
/// Fails with `HeaderNotFound` when the marker is missing (or ends the buffer), with
/// `TruncatedData` when the buffer ends inside the header or the window, and with
/// `TagMismatch` when strict validation rejects a tag.
pub fn decode_window(bytes: &[u8], cfg: &DecodeConfig) -> (r: Result<DecodedWindow, DecodeError>)
    ensures
        match r {
            Ok(w) => decode_spec(bytes@, *cfg) == Ok::<WindowView, DecodeError>(window_view(w)),
            Err(e) => decode_spec(bytes@, *cfg) == Err::<WindowView, DecodeError>(e),
        },
{
    let p = seek_wav_header(bytes, cfg.sync_marker);
    if p >= bytes.len() {
        return Err(DecodeError::HeaderNotFound);
    }
    let mut cur = ByteCursor::new(bytes);
    match cur.set_position(p) {
        Ok(()) => {},
        Err(_) => return Err(DecodeError::HeaderNotFound),
    }
    let header = match parse_header(&mut cur, cfg) {
        Ok(h) => h,
        Err(e) => return Err(e),
    };
    let mixed = match extract_samples(&mut cur, cfg) {
        Ok(m) => m,
        Err(e) => return Err(e),
    };
    let signal = normalize_data(mixed.as_slice(), cfg.range_seed);
    Ok(DecodedWindow { header, mixed, signal })
}

/// Decoding is a function of the bytes and the configuration alone: two runs on
/// byte-identical input yield identical results.
pub proof fn lemma_decode_deterministic(a: Seq<u8>, b: Seq<u8>, cfg: DecodeConfig)
    requires
        a == b,
    ensures
        decode_spec(a, cfg) == decode_spec(b, cfg),
{
}

} // verus!
