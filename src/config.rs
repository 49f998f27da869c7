//! Parameters of a decoding run.
use vstd::prelude::*;

verus! {

/// 'RIFF': the marker that opens the container.
pub const RIFF_MARKER: u32 = 0x5249_4646;

/// 'WAVE': the container type tag.
pub const WAVE_TAG: u32 = 0x5741_5645;

/// 'fmt ': the format chunk tag.
pub const FORMAT_TAG: u32 = 0x666d_7420;

/// 'data': the data chunk tag.
pub const DATA_TAG: u32 = 0x6461_7461;

/// Frames in the standard analysis window: four seconds at 44.1 kHz.
pub const STANDARD_WINDOW_LEN: usize = 176400;

/// What the header parser does when a chunk tag differs from the expected one.
#[derive(Clone, Copy, Debug, PartialEq, Eq, Structural)]
pub enum ValidationMode {
    /// Record the mismatch in the header's flags and go on.
    Lenient,
    /// Stop with `DecodeError::TagMismatch`.
    Strict,
}

/// Where the normalizer's running minimum and maximum start.
#[derive(Clone, Copy, Debug, PartialEq, Eq, Structural)]
pub enum RangeSeed {
    /// Both start at zero, so the range always holds zero.
    Zero,
    /// Both start at the first sample: the range is the true one.
    FirstSample,
}

/// Everything a decoding run is parameterised by.
#[derive(Clone, Copy, Debug, PartialEq, Eq, Structural)]
pub struct DecodeConfig {
    /// Synchronization marker that the header follows.
    pub sync_marker: u32,
    /// Expected container type tag.
    pub type_tag: u32,
    /// Expected format chunk tag.
    pub format_tag: u32,
    /// Expected data chunk tag.
    pub data_tag: u32,
    /// Number of stereo frames in the analysis window.
    pub window_len: usize,
    /// Bytes skipped between the header and the first frame.
    pub lead_in: usize,
    /// How tag mismatches are treated.
    pub validation: ValidationMode,
    /// How the normalizer's range is seeded.
    pub range_seed: RangeSeed,
}

/// Errors that end a decoding run.
#[derive(Clone, Copy, Debug, PartialEq, Eq, Structural)]
pub enum DecodeError {
    /// No synchronization marker was found.
    HeaderNotFound,
    /// A read went past the end of the buffer.
    TruncatedData,
    /// A chunk tag differed from the expected one under strict validation.
    TagMismatch,
}

impl DecodeConfig {
    /// The WAVE profile with the given window and lead-in: RIFF/WAVE/'fmt '/'data'
    /// tags, lenient validation and a zero-seeded range.
    pub fn wave(window_len: usize, lead_in: usize) -> (r: DecodeConfig)
        ensures
            r == DecodeConfig::wave_spec(window_len, lead_in),
    {
        DecodeConfig {
            sync_marker: RIFF_MARKER,
            type_tag: WAVE_TAG,
            format_tag: FORMAT_TAG,
            data_tag: DATA_TAG,
            window_len,
            lead_in,
            validation: ValidationMode::Lenient,
            range_seed: RangeSeed::Zero,
        }
    }

    /// The WAVE profile with the standard window and no lead-in.
    pub fn standard() -> (r: DecodeConfig)
        ensures
            r == DecodeConfig::wave_spec(STANDARD_WINDOW_LEN, 0),
    {
        DecodeConfig::wave(STANDARD_WINDOW_LEN, 0)
    }

    /// The value that `wave` returns.
    pub open spec fn wave_spec(window_len: usize, lead_in: usize) -> DecodeConfig {
        DecodeConfig {
            sync_marker: RIFF_MARKER,
            type_tag: WAVE_TAG,
            format_tag: FORMAT_TAG,
            data_tag: DATA_TAG,
            window_len,
            lead_in,
            validation: ValidationMode::Lenient,
            range_seed: RangeSeed::Zero,
        }
    }
}

} // verus!
