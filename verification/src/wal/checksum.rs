//! CRC-32C (Castagnoli), the checksum of WAL frames.
//!
//! The checksum is defined bit by bit: a 32-bit register starts with all
//! bits set, takes in each byte by exclusive or and is then shifted right
//! eight times, each time combined with the reflected polynomial when the
//! bit shifted out is set; the result is the register's complement.

use vstd::prelude::*;

verus! {

/// The polynomial 0x1EDC6F41 with its bits reflected.
pub const CASTAGNOLI_REFLECTED: u32 = 0x82F63B78;

/// One shift of the register.
pub open spec fn crc_shift(crc: u32) -> u32 {
    if crc & 1 == 1 {
        (crc >> 1) ^ CASTAGNOLI_REFLECTED
    } else {
        crc >> 1
    }
}

/// The register after it has taken in one byte.
pub open spec fn crc_byte(crc: u32, byte: u8) -> u32 {
    crc_shift(
        crc_shift(
            crc_shift(crc_shift(crc_shift(crc_shift(crc_shift(crc_shift(crc ^ (byte as u32))))))),
        ),
    )
}

/// The register after it has taken in all of `bytes`.
pub open spec fn crc_register(bytes: Seq<u8>) -> u32
    decreases bytes.len(),
{
    if bytes.len() == 0 {
        0xFFFF_FFFF
    } else {
        crc_byte(crc_register(bytes.drop_last()), bytes.last())
    }
}

/// The CRC-32C of `bytes`.
pub open spec fn crc32c(bytes: Seq<u8>) -> u32 {
    crc_register(bytes) ^ 0xFFFF_FFFF
}

fn shift(crc: u32) -> (r: u32)
    ensures
        r == crc_shift(crc),
{
    if crc & 1 == 1 {
        (crc >> 1) ^ CASTAGNOLI_REFLECTED
    } else {
        crc >> 1
    }
}

fn take_byte(crc: u32, byte: u8) -> (r: u32)
    ensures
        r == crc_byte(crc, byte),
{
    let c0 = crc ^ (byte as u32);
    let c1 = shift(c0);
    let c2 = shift(c1);
    let c3 = shift(c2);
    let c4 = shift(c3);
    let c5 = shift(c4);
    let c6 = shift(c5);
    let c7 = shift(c6);
    shift(c7)
}

/// Computes the CRC-32C of `bytes`.
pub fn compute_crc32c(bytes: &[u8]) -> (r: u32)
    ensures
        r == crc32c(bytes@),
{
    let mut crc: u32 = 0xFFFF_FFFF;
    let mut i: usize = 0;
    assert(bytes@.take(0) =~= Seq::<u8>::empty());
    while i < bytes.len()
        invariant
            i <= bytes@.len(),
            crc == crc_register(bytes@.take(i as int)),
        decreases bytes@.len() - i,
    {
        proof {
            let next = bytes@.take(i + 1);
            assert(next.drop_last() =~= bytes@.take(i as int));
            assert(next.last() == bytes@[i as int]);
        }
        crc = take_byte(crc, bytes[i]);
        i = i + 1;
    }
    assert(bytes@.take(bytes@.len() as int) =~= bytes@);
    crc ^ 0xFFFF_FFFF
}

} // verus!
