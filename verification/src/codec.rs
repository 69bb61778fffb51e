//! Decoding of the numeric fields of a measurement frame.
//!
//! Every measurement is a 32-bit value stored in four consecutive bytes,
//! first byte most significant.  Power additionally takes its sign from a
//! separate direction-flag byte.  Values are returned raw, exactly as the
//! wire carries them; unit scaling is the caller's business.
use vstd::prelude::*;

verus! {

use crate::SEGMENT_READ;

/// The 32-bit value stored most-significant-byte-first in four frame bytes.
pub open spec fn conv8to32_spec(hi_byte: u8, mid_byte_2: u8, mid_byte_1: u8, lo_byte: u8) -> u32 {
    (lo_byte as u32 + mid_byte_1 as u32 * 0x100 + mid_byte_2 as u32 * 0x10000 + hi_byte as u32
        * 0x1000000) as u32
}

/// The 32-bit field of `s` that starts at byte offset `n`.
pub open spec fn data_at(s: Seq<u8>, n: int) -> u32
    recommends
        0 <= n,
        n + 4 <= s.len(),
{
    conv8to32_spec(s[n], s[n + 1], s[n + 2], s[n + 3])
}

/// The signed raw power of a frame: the magnitude at `power_offset`, negated
/// when the direction flag at `sign_offset` is 1 and the magnitude is
/// positive.  A zero magnitude and every other flag value pass through
/// unchanged, so the sign is never flipped to positive.
pub open spec fn signed_power_at(s: Seq<u8>, power_offset: int, sign_offset: int) -> i64
    recommends
        0 <= power_offset,
        power_offset + 4 <= s.len(),
        0 <= sign_offset < s.len(),
{
    let magnitude = data_at(s, power_offset);
    if s[sign_offset] == 1 && magnitude > 0 {
        (-(magnitude as int)) as i64
    } else {
        magnitude as i64
    }
}

/// Converts four bytes of a frame field to the 32-bit value they store,
/// first byte most significant.
#[inline(always)]
pub fn conv8to32(hi_byte: u8, mid_byte_2: u8, mid_byte_1: u8, lo_byte: u8) -> (r: u32)
    ensures
        r == conv8to32_spec(hi_byte, mid_byte_2, mid_byte_1, lo_byte),
{
    lo_byte as u32 + (mid_byte_1 as u32) * 0x100 + (mid_byte_2 as u32) * 0x10000 + (hi_byte as u32)
        * 0x1000000
}

/// Reads the 32-bit field that starts at byte `n` of the frame.
pub fn get_data(segment_read: &[u8; SEGMENT_READ], n: usize) -> (r: u32)
    requires
        n + 3 < SEGMENT_READ,
    ensures
        r == data_at(segment_read@, n as int),
{
    conv8to32(
        segment_read[n],
        segment_read[n + 1],
        segment_read[n + 2],
        segment_read[n + 3],
    )
}

/// Reads the power field at `power` and applies the direction flag at
/// `sign`.
#[inline(always)]
pub fn power(segment_read: &[u8; SEGMENT_READ], power_offset: usize, sign: usize) -> (r: i64)
    requires
        power_offset + 3 < SEGMENT_READ,
        sign < SEGMENT_READ,
    ensures
        r == signed_power_at(segment_read@, power_offset as int, sign as int),
{
    let p = get_data(segment_read, power_offset);

    if segment_read[sign] == 1 && p > 0 {
        return -(p as i64);
    }

    p as i64
}

/// Encoding a 32-bit value into four bytes most-significant-byte-first and
/// decoding those bytes returns the value unchanged.
pub proof fn lemma_conv8to32_roundtrip(v: u32)
    ensures
        conv8to32_spec(
            ((v >> 24) & 0xff) as u8,
            ((v >> 16) & 0xff) as u8,
            ((v >> 8) & 0xff) as u8,
            (v & 0xff) as u8,
        ) == v,
{
    assert(((v & 0xff) as u8) as u32 + (((v >> 8) & 0xff) as u8) as u32 * 0x100 + (((v >> 16)
        & 0xff) as u8) as u32 * 0x10000 + (((v >> 24) & 0xff) as u8) as u32 * 0x1000000 == v)
        by (bit_vector);
}

} // verus!
