//! Scans for synchronization patterns in a raw byte buffer.
use crate::cursor::{be_u32, u32_at, Endian};
use vstd::prelude::*;

verus! {

/// The four bytes at `o` read, most significant first, as `marker`.
pub open spec fn marker_at(b: Seq<u8>, o: int, marker: u32) -> bool {
    0 <= o && o + 4 <= b.len() && u32_at(b, o, Endian::Big) == marker
}

/// The offset just past the first marker at or after `i`, or the length of `b`
/// when there is none.
pub open spec fn locate_from(b: Seq<u8>, marker: u32, i: int) -> int
    decreases b.len() - i,
{
    if i < 0 || i + 4 > b.len() {
        b.len() as int
    } else if marker_at(b, i, marker) {
        i + 4
    } else {
        locate_from(b, marker, i + 1)
    }
}

/// The offset just past the first marker in `b`, or the length of `b` when there is none.
pub open spec fn locate(b: Seq<u8>, marker: u32) -> int {
    locate_from(b, marker, 0)
}

/// Returns the offset four bytes past the first place where `marker` stands
/// (big-endian) in `data`, scanning one byte at a time; returns `data.len()` when
/// no offset holds it.
pub fn seek_wav_header(data: &[u8], marker: u32) -> (r: usize)
    ensures
        r as int == locate(data@, marker),
        r <= data@.len(),
        (forall|o: int| !marker_at(data@, o, marker)) ==> r == data@.len(),
        (exists|o: int| marker_at(data@, o, marker)) ==> {
            &&& r >= 4
            &&& marker_at(data@, r - 4, marker)
            &&& forall|o: int| 0 <= o < r - 4 ==> !marker_at(data@, o, marker)
        },
{
    let mut i: usize = 0;
    while data.len() >= 4 && i <= data.len() - 4
        invariant
            0 <= i <= data@.len(),
            locate(data@, marker) == locate_from(data@, marker, i as int),
            forall|o: int| 0 <= o < i ==> !marker_at(data@, o, marker),
        decreases data@.len() - i,
    {
        if be_u32(data, i) == marker {
            return i + 4;
        }
        i = i + 1;
    }
    proof {
        assert forall|o: int| !marker_at(data@, o, marker) by {
            if 0 <= o < i {
            }
        }
    }
    data.len()
}

/// Two bytes at `i` whose first twelve bits are all set: an audio frame sync word.
pub open spec fn frame_sync_at(b: Seq<u8>, i: int) -> bool {
    0 <= i && i + 1 < b.len() && b[i] == 0xFF && b[i + 1] >= 0xF0
}

/// Returns the first offset `i` at which the twelve bits starting at byte `i` are all
/// set, or `data.len()` when there is none.
pub fn seek_header(data: &[u8]) -> (r: usize)
    ensures
        r <= data@.len(),
        r < data@.len() ==> frame_sync_at(data@, r as int),
        forall|o: int| 0 <= o < r ==> !frame_sync_at(data@, o),
{
    let mut i: usize = 0;
    while i < data.len() && i + 1 < data.len()
        invariant
            0 <= i <= data@.len(),
            forall|o: int| 0 <= o < i ==> !frame_sync_at(data@, o),
        decreases data@.len() - i,
    {
        let hi: u8 = data[i];
        let lo: u8 = data[i + 1];
        let word: u16 = (((hi as u16) << 8u16) | (lo as u16)) >> 4u16;
        assert(((((hi as u16) << 8u16) | (lo as u16)) >> 4u16 == 0xFFFu16) == (hi == 0xFFu8
            && lo >= 0xF0u8)) by (bit_vector);
        if word == 0xFFF {
            return i;
        }
        i = i + 1;
    }
    data.len()
}

} // verus!
