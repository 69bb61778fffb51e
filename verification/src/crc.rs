//! CRC-16/Modbus validation of a measurement frame.
//!
//! A frame carries its checksum in its last two bytes, low byte first.  The
//! validator recomputes the checksum over everything before those two bytes
//! and compares.
use vstd::prelude::*;

verus! {

use crate::READ_DATA_SIZE;

/// One shift step of the CRC register: shift right, folding the polynomial
/// 0xA001 back in when the low bit was set.
pub open spec fn crc_shift(crc: u16) -> u16 {
    if crc & 0x0001 != 0 {
        (crc >> 1) ^ 0xA001
    } else {
        crc >> 1
    }
}

/// The CRC register after `n` shift steps.
pub open spec fn crc_shifts(crc: u16, n: nat) -> u16
    decreases n,
{
    if n == 0 {
        crc
    } else {
        crc_shifts(crc_shift(crc), (n - 1) as nat)
    }
}

/// The CRC register after absorbing one input byte: the byte is XORed into
/// the low byte of the register, which is then shifted eight times.
pub open spec fn crc_absorb(crc: u16, byte: u8) -> u16 {
    crc_shifts(crc ^ (byte as u16), 8)
}

/// The CRC register after absorbing every byte of `s` in order, starting
/// from `crc`.
pub open spec fn crc16_from(crc: u16, s: Seq<u8>) -> u16
    decreases s.len(),
{
    if s.len() == 0 {
        crc
    } else {
        crc16_from(crc_absorb(crc, s[0]), s.drop_first())
    }
}

/// The CRC-16/Modbus checksum of `s`: every byte absorbed into a register
/// seeded with 0xFFFF.
pub open spec fn crc16(s: Seq<u8>) -> u16 {
    crc16_from(0xFFFF, s)
}

/// The checksum a buffer declares in its two trailing bytes, low byte first.
pub open spec fn declared_crc(s: Seq<u8>) -> int
    recommends
        s.len() >= 2,
{
    (s[s.len() - 1] as int) * 256 + (s[s.len() - 2] as int)
}

/// Whether the checksum computed over all but the last two bytes of `s`
/// equals the one `s` declares.
pub open spec fn crc_matches(s: Seq<u8>) -> bool
    recommends
        s.len() >= 2,
{
    crc16(s.subrange(0, s.len() - 2)) == declared_crc(s)
}

/// Checks the declared checksum of `buf` against the one computed over its
/// payload.
pub fn is_crc_ok(buf: &[u8]) -> (r: bool)
    requires
        buf@.len() >= 2,
    ensures
        r == crc_matches(buf@),
{
    let mut crc: u16 = 0xFFFF;
    let len: usize = buf.len();
    let low: usize = len - 2;
    let hi: usize = len - 1;
    let buf_crc: u16 = (buf[hi] as u16) * 256 + (buf[low] as u16);

    let ghost payload = buf@.subrange(0, len - 2);
    let mut i: usize = 0;
    while i < len - 2
        invariant
            2 <= len == buf@.len(),
            0 <= i <= len - 2,
            payload == buf@.subrange(0, len - 2),
            crc16_from(crc, buf@.subrange(i as int, len - 2)) == crc16(payload),
        decreases len - 2 - i,
    {
        let byte = buf[i];
        let ghost entry_crc = crc;
        let ghost rest = buf@.subrange(i as int, len - 2);
        crc ^= byte as u16;
        let ghost absorbed = crc;

        let mut j: usize = 0;
        while j < 8
            invariant
                0 <= j <= 8,
                crc_shifts(crc, (8 - j) as nat) == crc_shifts(absorbed, 8),
            decreases 8 - j,
        {
            if crc & 0x0001 != 0 {
                crc >>= 1;
                crc ^= 0xA001;
            } else {
                crc >>= 1;
            }
            j += 1;
        }

        proof {
            assert(crc == crc_absorb(entry_crc, byte));
            assert(rest[0] == byte);
            assert(rest.drop_first() =~= buf@.subrange(i + 1, len - 2));
            assert(crc16_from(entry_crc, rest) == crc16_from(crc, rest.drop_first()));
        }
        i += 1;
    }
    proof {
        assert(buf@.subrange(len - 2, len - 2) =~= Seq::<u8>::empty());
        assert(crc == crc16(payload));
    }
    crc == buf_crc
}

/// The permissive validator: accepts every buffer.  Selected at construction
/// time for modules known not to populate the checksum.
pub fn crc_always_ok(_buf: &[u8]) -> (r: bool)
    ensures
        r,
{
    true
}

/// Every frame whose trailing bytes declare the checksum of its payload
/// passes validation.
pub proof fn lemma_crc_accepts_valid(f: Seq<u8>)
    requires
        f.len() == READ_DATA_SIZE,
        crc16(f.subrange(0, READ_DATA_SIZE - 2)) == (f[READ_DATA_SIZE - 1] as int) * 256 + (
        f[READ_DATA_SIZE - 2] as int),
    ensures
        crc_matches(f),
{
}

/// Any corruption of a valid frame's payload that changes the computed
/// checksum makes validation fail, as long as the trailing checksum bytes
/// are the ones of the valid frame.
pub proof fn lemma_crc_rejects_corruption(f: Seq<u8>, g: Seq<u8>)
    requires
        f.len() == READ_DATA_SIZE,
        g.len() == READ_DATA_SIZE,
        crc_matches(f),
        g[READ_DATA_SIZE - 1] == f[READ_DATA_SIZE - 1],
        g[READ_DATA_SIZE - 2] == f[READ_DATA_SIZE - 2],
        crc16(g.subrange(0, READ_DATA_SIZE - 2)) != crc16(f.subrange(0, READ_DATA_SIZE - 2)),
    ensures
        !crc_matches(g),
{
}

} // verus!
