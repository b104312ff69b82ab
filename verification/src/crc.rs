//! The two checksums of the wire protocol, defined bit by bit.
//!
//! CRC-16/CCITT-FALSE protects every link-layer frame; CRC-32/ISO-HDLC
//! summarises a whole firmware image for the up-to-date check and the final
//! verification.

use vstd::prelude::*;

verus! {

/// One shift step of CRC-16/CCITT-FALSE: polynomial 0x1021, most significant
/// bit first, no reflection.
pub open spec fn crc16_shift(c: u16) -> u16 {
    if c & 0x8000 == 0x8000 {
        (c << 1) ^ 0x1021
    } else {
        c << 1
    }
}

/// `n` CRC-16 shift steps applied to `c`.
pub open spec fn crc16_shifts(c: u16, n: nat) -> u16
    decreases n,
{
    if n == 0 {
        c
    } else {
        crc16_shift(crc16_shifts(c, (n - 1) as nat))
    }
}

/// Folding one message byte into the running CRC-16 state.
pub open spec fn crc16_byte(c: u16, b: u8) -> u16 {
    crc16_shifts(c ^ ((b as u16) << 8), 8)
}

/// Running CRC-16 state after all bytes of `data`, starting from `c`.
pub open spec fn crc16_fold(c: u16, data: Seq<u8>) -> u16
    decreases data.len(),
{
    if data.len() == 0 {
        c
    } else {
        crc16_byte(crc16_fold(c, data.drop_last()), data.last())
    }
}

/// CRC-16/CCITT-FALSE of `data`: initial value 0xFFFF, no final xor.
pub open spec fn crc16(data: Seq<u8>) -> u16 {
    crc16_fold(0xFFFF, data)
}

fn crc16_step(c: u16) -> (r: u16)
    ensures
        r == crc16_shift(c),
{
    if c & 0x8000 == 0x8000 {
        (c << 1) ^ 0x1021
    } else {
        c << 1
    }
}

fn crc16_push(c: u16, b: u8) -> (r: u16)
    ensures
        r == crc16_byte(c, b),
{
    let x0: u16 = c ^ ((b as u16) << 8);
    let mut x: u16 = x0;
    let mut k: usize = 0;
    while k < 8
        invariant
            0 <= k <= 8,
            x == crc16_shifts(x0, k as nat),
        decreases 8 - k,
    {
        x = crc16_step(x);
        k = k + 1;
    }
    x
}

/// CRC-16/CCITT-FALSE of a byte slice.
pub fn compute_crc16(data: &[u8]) -> (r: u16)
    ensures
        r == crc16(data@),
{
    let mut c: u16 = 0xFFFF;
    let mut i: usize = 0;
    while i < data.len()
        invariant
            0 <= i <= data@.len(),
            c == crc16_fold(0xFFFF, data@.take(i as int)),
        decreases data@.len() - i,
    {
        c = crc16_push(c, data[i]);
        i = i + 1;
        proof {
            assert(data@.take(i as int).drop_last() =~= data@.take(i as int - 1));
            assert(data@.take(i as int).last() == data@[i as int - 1]);
        }
    }
    proof {
        assert(data@.take(data@.len() as int) =~= data@);
    }
    c
}

/// One shift step of CRC-32/ISO-HDLC: reflected polynomial 0xEDB88320,
/// least significant bit first.
pub open spec fn crc32_shift(c: u32) -> u32 {
    if c & 1 == 1 {
        (c >> 1) ^ 0xEDB88320
    } else {
        c >> 1
    }
}

/// `n` CRC-32 shift steps applied to `c`.
pub open spec fn crc32_shifts(c: u32, n: nat) -> u32
    decreases n,
{
    if n == 0 {
        c
    } else {
        crc32_shift(crc32_shifts(c, (n - 1) as nat))
    }
}

/// Folding one message byte into the running CRC-32 state.
pub open spec fn crc32_byte(c: u32, b: u8) -> u32 {
    crc32_shifts(c ^ (b as u32), 8)
}

/// Running CRC-32 state after all bytes of `data`, starting from `c`.
pub open spec fn crc32_fold(c: u32, data: Seq<u8>) -> u32
    decreases data.len(),
{
    if data.len() == 0 {
        c
    } else {
        crc32_byte(crc32_fold(c, data.drop_last()), data.last())
    }
}

/// CRC-32/ISO-HDLC of `data`: initial value 0xFFFFFFFF, reflected in and out,
/// final xor 0xFFFFFFFF.
pub open spec fn crc32(data: Seq<u8>) -> u32 {
    crc32_fold(0xFFFFFFFF, data) ^ 0xFFFFFFFF
}

fn crc32_step(c: u32) -> (r: u32)
    ensures
        r == crc32_shift(c),
{
    if c & 1 == 1 {
        (c >> 1) ^ 0xEDB88320
    } else {
        c >> 1
    }
}

fn crc32_push(c: u32, b: u8) -> (r: u32)
    ensures
        r == crc32_byte(c, b),
{
    let x0: u32 = c ^ (b as u32);
    let mut x: u32 = x0;
    let mut k: usize = 0;
    while k < 8
        invariant
            0 <= k <= 8,
            x == crc32_shifts(x0, k as nat),
        decreases 8 - k,
    {
        x = crc32_step(x);
        k = k + 1;
    }
    x
}

/// CRC-32/ISO-HDLC of a byte slice, as used to summarise a firmware image.
pub fn calculate_crc32(data: &[u8]) -> (r: u32)
    ensures
        r == crc32(data@),
{
    let mut c: u32 = 0xFFFFFFFF;
    let mut i: usize = 0;
    while i < data.len()
        invariant
            0 <= i <= data@.len(),
            c == crc32_fold(0xFFFFFFFF, data@.take(i as int)),
        decreases data@.len() - i,
    {
        c = crc32_push(c, data[i]);
        i = i + 1;
        proof {
            assert(data@.take(i as int).drop_last() =~= data@.take(i as int - 1));
            assert(data@.take(i as int).last() == data@[i as int - 1]);
        }
    }
    proof {
        assert(data@.take(data@.len() as int) =~= data@);
    }
    c ^ 0xFFFFFFFF
}

} // verus!
