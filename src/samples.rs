//! Reads stereo 24-bit frames and mixes each into one integer.
use crate::config::{DecodeConfig, DecodeError};
use crate::cursor::{i24_at, ByteCursor, Endian};
use vstd::prelude::*;

verus! {

/// Bytes in one frame: a 24-bit left sample then a 24-bit right sample.
pub const FRAME_LEN: usize = 6;

/// Half of `x`, rounded toward zero.
pub open spec fn half_toward_zero(x: int) -> int {
    if x >= 0 {
        x / 2
    } else {
        -((-x) / 2)
    }
}

/// One channel-mixed value: each sample halved toward zero, then summed.
pub open spec fn mix(left: int, right: int) -> int {
    half_toward_zero(left) + half_toward_zero(right)
}

/// The mixed value of the frame stored at `at`.
pub open spec fn frame_mix(b: Seq<u8>, at: int) -> int {
    mix(i24_at(b, at, Endian::Little), i24_at(b, at + 3, Endian::Little))
}

/// The mixed values of the `n` frames stored from `start` on.
pub open spec fn mixed_frames(b: Seq<u8>, start: int, n: int) -> Seq<i32> {
    Seq::new(n as nat, |k: int| frame_mix(b, start + FRAME_LEN * k) as i32)
}

/// Offset of the first frame when the header ends at `p`.
pub open spec fn frames_start(p: int, cfg: DecodeConfig) -> int {
    p + cfg.lead_in
}

/// The outcome of extracting the window when the header ends at `p` of `b`.
pub open spec fn extract_spec(b: Seq<u8>, p: int, cfg: DecodeConfig) -> Result<
    Seq<i32>,
    DecodeError,
> {
    if frames_start(p, cfg) + FRAME_LEN * cfg.window_len > b.len() {
        Err(DecodeError::TruncatedData)
    } else {
        Ok(mixed_frames(b, frames_start(p, cfg), cfg.window_len as int))
    }
}

/// Half of `x`, rounded toward zero, as integer division does.
fn half(x: i32) -> (r: i32)
    ensures
        r as int == half_toward_zero(x as int),
{
    if x >= 0 {
        x / 2
    } else {
        -((-(x as i64)) / 2) as i32
    }
}

/// Skips `cfg.lead_in` bytes, then reads `cfg.window_len` little-endian stereo
/// frames and mixes each as `left / 2 + right / 2` (integer division). Fails with
/// `TruncatedData` when the buffer ends before the last frame.
pub fn extract_samples(cur: &mut ByteCursor, cfg: &DecodeConfig) -> (r: Result<
    Vec<i32>,
    DecodeError,
>)
    ensures
        final(cur).bytes() == old(cur).bytes(),
        match r {
            Ok(v) => extract_spec(old(cur).bytes(), old(cur).pos(), *cfg) == Ok::<
                Seq<i32>,
                DecodeError,
            >(v@),
            Err(e) => extract_spec(old(cur).bytes(), old(cur).pos(), *cfg) == Err::<
                Seq<i32>,
                DecodeError,
            >(e),
        },
{
    let ghost b = cur.bytes();
    let start = cur.position();
    let n = cfg.window_len;
    if cfg.lead_in > cur.len() - start {
        return Err(DecodeError::TruncatedData);
    }
    let first = start + cfg.lead_in;
    if (cur.len() - first) / FRAME_LEN < n {
        return Err(DecodeError::TruncatedData);
    }
    match cur.set_position(first) {
        Ok(()) => {},
        Err(_) => return Err(DecodeError::TruncatedData),
    }
    let mut out: Vec<i32> = Vec::new();
    let mut i: usize = 0;
    while i < n
        invariant
            cur.bytes() == b,
            0 <= i <= n,
            n == cfg.window_len,
            first + FRAME_LEN * n <= b.len(),
            cur.pos() == first + FRAME_LEN * i,
            out@ =~= mixed_frames(b, first as int, i as int),
        decreases n - i,
    {
        let left = match cur.read_i24(Endian::Little) {
            Ok(v) => v,
            Err(_) => return Err(DecodeError::TruncatedData),
        };
        let right = match cur.read_i24(Endian::Little) {
            Ok(v) => v,
            Err(_) => return Err(DecodeError::TruncatedData),
        };
        proof {
            assert(-8388608 <= left as int <= 8388607);
            assert(-8388608 <= right as int <= 8388607);
        }
        let m = half(left) + half(right);
        out.push(m);
        i = i + 1;
        assert(out@ =~= mixed_frames(b, first as int, i as int));
    }
    Ok(out)
}

} // verus!
