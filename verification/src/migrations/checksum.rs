//! Checksums of migration files: a CRC-32 of the content, written as
//! `crc32:` and eight hexadecimal digits in upper case.

use vstd::prelude::*;
use vstd::string::*;
use crate::ids::{hex_fixed_upper, push_hex_upper};
use crate::text::{
    char_count,
    joined,
    lines_of,
    lines_of_text,
    owned,
    parse_number,
    parsed_number,
    same_text,
    slice_chars,
    starts_with,
};

verus! {

/// The polynomial 0x04C11DB7 of CRC-32 (IEEE 802.3) with its bits reflected.
pub const IEEE_REFLECTED: u32 = 0xEDB88320;

/// One shift of the register.
pub open spec fn ieee_shift(crc: u32) -> u32 {
    if crc & 1 == 1 {
        (crc >> 1) ^ IEEE_REFLECTED
    } else {
        crc >> 1
    }
}

/// The register after it has taken in one byte.
pub open spec fn ieee_byte(crc: u32, byte: u8) -> u32 {
    ieee_shift(
        ieee_shift(
            ieee_shift(
                ieee_shift(ieee_shift(ieee_shift(ieee_shift(ieee_shift(crc ^ (byte as u32)))))),
            ),
        ),
    )
}

/// The register after it has taken in all of `bytes`.
pub open spec fn ieee_register(bytes: Seq<u8>) -> u32
    decreases bytes.len(),
{
    if bytes.len() == 0 {
        0xFFFF_FFFF
    } else {
        ieee_byte(ieee_register(bytes.drop_last()), bytes.last())
    }
}

/// The CRC-32 (IEEE 802.3) of some bytes: the register starts with all bits
/// set, takes in the bytes in order, and is complemented at the end.
pub open spec fn crc32_ieee(bytes: Seq<u8>) -> u32 {
    ieee_register(bytes) ^ 0xFFFF_FFFF
}

/// Calls `crc32fast::hash`, which computes the CRC-32 (IEEE) of the bytes.
/// That it gives the checksum as it is defined here is taken on trust.
#[verifier::external_body]
fn crc32_of(bytes: &[u8]) -> (r: u32)
    ensures
        r == crc32_ieee(bytes@),
{
    crc32fast::hash(bytes)
}

fn shift_once(crc: u32) -> (r: u32)
    ensures
        r == ieee_shift(crc),
{
    if crc & 1 == 1 {
        (crc >> 1) ^ IEEE_REFLECTED
    } else {
        crc >> 1
    }
}

/// Computes the CRC-32 of some bytes bit by bit, as it is defined: the
/// measure that the fast computation is held against.
pub fn crc32_by_definition(bytes: &[u8]) -> (r: u32)
    ensures
        r == crc32_ieee(bytes@),
{
    let mut crc: u32 = 0xFFFF_FFFF;
    let mut i: usize = 0;
    assert(bytes@.take(0) =~= Seq::<u8>::empty());
    while i < bytes.len()
        invariant
            i <= bytes@.len(),
            crc == ieee_register(bytes@.take(i as int)),
        decreases bytes@.len() - i,
    {
        proof {
            let next = bytes@.take(i + 1);
            assert(next.drop_last() =~= bytes@.take(i as int));
            assert(next.last() == bytes@[i as int]);
        }
        let mut taken = crc ^ (bytes[i] as u32);
        taken = shift_once(taken);
        taken = shift_once(taken);
        taken = shift_once(taken);
        taken = shift_once(taken);
        taken = shift_once(taken);
        taken = shift_once(taken);
        taken = shift_once(taken);
        taken = shift_once(taken);
        crc = taken;
        i = i + 1;
    }
    assert(bytes@.take(bytes@.len() as int) =~= bytes@);
    crc ^ 0xFFFF_FFFF
}

/// The written form of a checksum.
pub open spec fn checksum_text(checksum: u32) -> Seq<char> {
    "crc32:"@ + hex_fixed_upper(checksum as nat, 8)
}

/// The checksum of a content in its written form.
pub open spec fn content_checksum(content: Seq<char>) -> Seq<char> {
    checksum_text(crc32_ieee(vstd::utf8::encode_utf8(content)))
}

/// The written form of a checksum.
pub fn format_checksum(checksum: u32) -> (r: String)
    ensures
        r@ == checksum_text(checksum),
{
    let mut out = owned("crc32:");
    push_hex_upper(&mut out, checksum as u128, 8);
    out
}

/// Compute the checksum of a migration file's content.
pub fn compute_checksum(content: &str) -> (r: String)
    ensures
        r@ == content_checksum(content@),
{
    format_checksum(crc32_of(content.as_bytes()))
}

/// Verify that a content has the checksum expected.
pub fn verify_checksum(content: &str, expected: &str) -> (r: bool)
    ensures
        r == (content_checksum(content@) == expected@),
{
    let actual = compute_checksum(content);
    same_text(actual.as_str(), expected)
}

/// The number of a checksum in its written form: what follows `crc32:`,
/// read as a hexadecimal number of 32 bits. Nothing for any other text.
pub open spec fn parsed_checksum(formatted: Seq<char>) -> Option<u32> {
    if !"crc32:"@.is_prefix_of(formatted) {
        None
    } else {
        match parsed_number(formatted.skip("crc32:"@.len() as int), 16, 0xFFFF_FFFF) {
            Some(v) => Some(v as u32),
            None => None,
        }
    }
}

/// Parse a checksum from its written form.
pub fn parse_checksum(formatted: &str) -> (r: Option<u32>)
    ensures
        r == parsed_checksum(formatted@),
{
    proof {
        reveal_strlit("crc32:");
    }
    if !starts_with(formatted, "crc32:") {
        return None;
    }
    let n = char_count(formatted);
    let hex_part = slice_chars(formatted, 6, n);
    assert(formatted@.subrange(6, n as int) =~= formatted@.skip(6));
    match parse_number(hex_part, 16, 0xFFFF_FFFF) {
        Some(v) => Some(v as u32),
        None => None,
    }
}

/// The lines that take part in a file's checksum: all but those that start
/// with `checksum:`.
pub open spec fn checksummed_lines(lines: Seq<Seq<char>>) -> Seq<Seq<char>> {
    lines.filter(|line: Seq<char>| !"checksum:"@.is_prefix_of(line))
}

/// The checksum of a migration file: that of its lines without the line of
/// the checksum itself, joined by line feeds.
pub open spec fn file_checksum(content: Seq<char>) -> Seq<char> {
    content_checksum(joined(checksummed_lines(lines_of_text(content)), "\n"@))
}

/// The texts of some strings.
pub open spec fn texts_of(v: Seq<String>) -> Seq<Seq<char>> {
    v.map_values(|s: String| s@)
}

/// The lines of a file without those of the checksum, joined by line feeds.
pub fn content_without_checksum(content: &str) -> (r: String)
    ensures
        r@ == joined(checksummed_lines(lines_of_text(content@)), "\n"@),
{
    let lines = lines_of(content);
    assert(texts_of(lines@) =~= lines_of_text(content@));
    let mut out = String::new();
    let mut count: usize = 0;
    let mut i: usize = 0;
    proof {
        assert(texts_of(lines@).take(0) =~= Seq::<Seq<char>>::empty());
        reveal(Seq::filter);
    }
    while i < lines.len()
        invariant
            i <= lines@.len(),
            count == checksummed_lines(texts_of(lines@).take(i as int)).len(),
            out@ == joined(checksummed_lines(texts_of(lines@).take(i as int)), "\n"@),
        decreases lines@.len() - i,
    {
        let ghost before = checksummed_lines(texts_of(lines@).take(i as int));
        proof {
            let next = texts_of(lines@).take(i + 1);
            assert(next.drop_last() =~= texts_of(lines@).take(i as int));
            assert(next.last() == lines@[i as int]@);
            reveal(Seq::filter);
        }
        if !starts_with(lines[i].as_str(), "checksum:") {
            if count > 0 {
                out.append("\n");
            }
            out.append(lines[i].as_str());
            proof {
                let now = before.push(lines@[i as int]@);
                assert(checksummed_lines(texts_of(lines@).take(i + 1)) =~= now);
                assert(now.drop_last() =~= before);
                if count == 0 {
                    assert(before =~= Seq::<Seq<char>>::empty());
                    assert(out@ =~= lines@[i as int]@);
                }
            }
            count = count + 1;
        }
        i = i + 1;
    }
    assert(texts_of(lines@).take(lines@.len() as int) =~= texts_of(lines@));
    out
}

/// Generate the checksum for a migration file's content, leaving out the
/// line of the checksum itself.
pub fn generate_checksum_for_file(content: &str) -> (r: String)
    ensures
        r@ == file_checksum(content@),
{
    let without = content_without_checksum(content);
    compute_checksum(without.as_str())
}

} // verus!
