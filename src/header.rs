//! The fixed sequence of fields that follows the synchronization marker.
use crate::config::{DecodeConfig, DecodeError, ValidationMode};
use crate::cursor::{u16_at, u32_at, ByteCursor, Endian};
use vstd::prelude::*;

verus! {

/// Bytes taken by the header fields after the marker.
pub const HEADER_LEN: usize = 40;

/// The fields of the container header, in the order they are stored.
#[derive(Clone, Copy, Debug, PartialEq, Eq, Structural)]
pub struct ContainerHeader {
    pub declared_size: u32,
    pub is_recognized_type: bool,
    pub is_format_chunk_valid: bool,
    pub format_chunk_len: u32,
    pub audio_format: u16,
    pub channel_count: u16,
    pub sample_rate: u32,
    pub byte_rate: u32,
    pub block_align: u16,
    pub bits_per_sample: u16,
    pub is_data_chunk_valid: bool,
    pub data_size: u32,
}

/// All three chunk tags matched the expected ones.
pub open spec fn tags_valid(h: ContainerHeader) -> bool {
    h.is_recognized_type && h.is_format_chunk_valid && h.is_data_chunk_valid
}

/// The header whose fields start at offset `p` of `b`.
pub open spec fn header_at(b: Seq<u8>, p: int, cfg: DecodeConfig) -> ContainerHeader {
    ContainerHeader {
        declared_size: u32_at(b, p, Endian::Little) as u32,
        is_recognized_type: u32_at(b, p + 4, Endian::Big) == cfg.type_tag,
        is_format_chunk_valid: u32_at(b, p + 8, Endian::Big) == cfg.format_tag,
        format_chunk_len: u32_at(b, p + 12, Endian::Little) as u32,
        audio_format: u16_at(b, p + 16, Endian::Little) as u16,
        channel_count: u16_at(b, p + 18, Endian::Little) as u16,
        sample_rate: u32_at(b, p + 20, Endian::Little) as u32,
        byte_rate: u32_at(b, p + 24, Endian::Little) as u32,
        block_align: u16_at(b, p + 28, Endian::Little) as u16,
        bits_per_sample: u16_at(b, p + 30, Endian::Little) as u16,
        is_data_chunk_valid: u32_at(b, p + 32, Endian::Big) == cfg.data_tag,
        data_size: u32_at(b, p + 36, Endian::Little) as u32,
    }
}

/// The outcome of parsing the header at offset `p` of `b`.
pub open spec fn parse_header_spec(b: Seq<u8>, p: int, cfg: DecodeConfig) -> Result<
    ContainerHeader,
    DecodeError,
> {
    if p + HEADER_LEN > b.len() {
        Err(DecodeError::TruncatedData)
    } else if cfg.validation == ValidationMode::Strict && !tags_valid(header_at(b, p, cfg)) {
        Err(DecodeError::TagMismatch)
    } else {
        Ok(header_at(b, p, cfg))
    }
}

/// Reads the header fields at the cursor. Fails with `TruncatedData`, leaving the
/// cursor in place, when fewer than `HEADER_LEN` bytes remain; otherwise moves past
/// the fields, and fails with `TagMismatch` only under strict validation.
pub fn parse_header(cur: &mut ByteCursor, cfg: &DecodeConfig) -> (r: Result<
    ContainerHeader,
    DecodeError,
>)
    ensures
        final(cur).bytes() == old(cur).bytes(),
        r == parse_header_spec(old(cur).bytes(), old(cur).pos(), *cfg),
        r == Err::<ContainerHeader, DecodeError>(DecodeError::TruncatedData) ==> final(cur).pos()
            == old(cur).pos(),
        r != Err::<ContainerHeader, DecodeError>(DecodeError::TruncatedData) ==> final(cur).pos()
            == old(cur).pos() + HEADER_LEN,
{
    let start = cur.position();
    if cur.len() - start < HEADER_LEN {
        return Err(DecodeError::TruncatedData);
    }
    let ghost b = cur.bytes();
    let ghost p = start as int;
    let declared_size = match cur.read_u32(Endian::Little) {
        Ok(v) => v,
        Err(_) => return Err(DecodeError::TruncatedData),
    };
    let type_tag = match cur.read_u32(Endian::Big) {
        Ok(v) => v,
        Err(_) => return Err(DecodeError::TruncatedData),
    };
    let format_tag = match cur.read_u32(Endian::Big) {
        Ok(v) => v,
        Err(_) => return Err(DecodeError::TruncatedData),
    };
    let format_chunk_len = match cur.read_u32(Endian::Little) {
        Ok(v) => v,
        Err(_) => return Err(DecodeError::TruncatedData),
    };
    let audio_format = match cur.read_u16(Endian::Little) {
        Ok(v) => v,
        Err(_) => return Err(DecodeError::TruncatedData),
    };
    let channel_count = match cur.read_u16(Endian::Little) {
        Ok(v) => v,
        Err(_) => return Err(DecodeError::TruncatedData),
    };
    let sample_rate = match cur.read_u32(Endian::Little) {
        Ok(v) => v,
        Err(_) => return Err(DecodeError::TruncatedData),
    };
    let byte_rate = match cur.read_u32(Endian::Little) {
        Ok(v) => v,
        Err(_) => return Err(DecodeError::TruncatedData),
    };
    let block_align = match cur.read_u16(Endian::Little) {
        Ok(v) => v,
        Err(_) => return Err(DecodeError::TruncatedData),
    };
    let bits_per_sample = match cur.read_u16(Endian::Little) {
        Ok(v) => v,
        Err(_) => return Err(DecodeError::TruncatedData),
    };
    let data_tag = match cur.read_u32(Endian::Big) {
        Ok(v) => v,
        Err(_) => return Err(DecodeError::TruncatedData),
    };
    let data_size = match cur.read_u32(Endian::Little) {
        Ok(v) => v,
        Err(_) => return Err(DecodeError::TruncatedData),
    };
    let h = ContainerHeader {
        declared_size,
        is_recognized_type: type_tag == cfg.type_tag,
        is_format_chunk_valid: format_tag == cfg.format_tag,
        format_chunk_len,
        audio_format,
        channel_count,
        sample_rate,
        byte_rate,
        block_align,
        bits_per_sample,
        is_data_chunk_valid: data_tag == cfg.data_tag,
        data_size,
    };
    assert(h == header_at(b, p, *cfg));
    match cfg.validation {
        ValidationMode::Strict => {
            if !(h.is_recognized_type && h.is_format_chunk_valid && h.is_data_chunk_valid) {
                return Err(DecodeError::TagMismatch);
            }
        },
        ValidationMode::Lenient => {},
    }
    Ok(h)
}

} // verus!
