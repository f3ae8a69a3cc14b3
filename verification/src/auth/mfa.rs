//! Multi-factor authentication by time-based one-time passwords.
//!
//! A secret is shared with the user's authenticator as unpadded Base32. The
//! password for a time is the truncated HMAC of the secret and the number of
//! the period that the time falls in, reduced to the configured number of
//! digits.

use hmac::Mac;
use sha2::Digest;
use vstd::bytes::*;
use vstd::prelude::*;
use vstd::string::*;
use crate::auth::errors::{AuthError, AuthResult};
use crate::ids::{hex_fixed, push_hex, random_bytes, random_uuid};
use crate::text::{
    chars_of,
    decimal,
    lowercased,
    owned,
    pad_with_zeros,
    push_decimal,
    same_text,
    to_lowercase,
    url_encode,
    url_encoded,
    without_char,
    zero_padded,
};

verus! {

/// TOTP hash algorithm.
#[derive(Debug, Clone, Copy, PartialEq, Eq, Structural)]
pub enum TotpAlgorithm {
    SHA1,
    SHA256,
    SHA512,
}

impl TotpAlgorithm {
    /// The algorithm's name.
    pub open spec fn name_text(self) -> Seq<char> {
        match self {
            TotpAlgorithm::SHA1 => "SHA1"@,
            TotpAlgorithm::SHA256 => "SHA256"@,
            TotpAlgorithm::SHA512 => "SHA512"@,
        }
    }

    /// The algorithm's name.
    pub fn as_str(&self) -> (r: &'static str)
        ensures
            r@ == self.name_text(),
    {
        match self {
            TotpAlgorithm::SHA1 => "SHA1",
            TotpAlgorithm::SHA256 => "SHA256",
            TotpAlgorithm::SHA512 => "SHA512",
        }
    }

    /// The algorithm's name as an owned string.
    pub fn to_string(&self) -> (r: String)
        ensures
            r@ == self.name_text(),
    {
        owned(self.as_str())
    }
}

/// TOTP configuration.
#[derive(Debug, Clone, PartialEq, Eq)]
pub struct TotpConfig {
    /// Issuer name, shown in authenticator apps.
    pub issuer: String,
    /// Number of digits.
    pub digits: u32,
    /// Time step in seconds.
    pub period: u64,
    /// Algorithm.
    pub algorithm: TotpAlgorithm,
    /// Number of periods to check before and after the current one.
    pub skew: u32,
}

impl Default for TotpConfig {
    fn default() -> (r: Self)
        ensures
            r.issuer@ == "AeroDB"@,
            r.digits == 6,
            r.period == 30,
            r.algorithm == TotpAlgorithm::SHA1,
            r.skew == 1,
    {
        TotpConfig {
            issuer: owned("AeroDB"),
            digits: 6,
            period: 30,
            algorithm: TotpAlgorithm::SHA1,
            skew: 1,
        }
    }
}

/// Type of MFA factor.
#[derive(Debug, Clone, Copy, PartialEq, Eq, Structural)]
pub enum MfaFactorType {
    TOTP,
}

/// Status of an MFA factor.
#[derive(Debug, Clone, Copy, PartialEq, Eq, Structural)]
pub enum MfaFactorStatus {
    /// Factor is set up but not yet verified.
    Unverified,
    /// Factor is active and can be used.
    Verified,
    /// Factor is disabled.
    Disabled,
}

/// 2 to the power `k`.
pub open spec fn two_to(k: nat) -> nat
    decreases k,
{
    if k == 0 {
        1
    } else {
        2 * two_to((k - 1) as nat)
    }
}

/// The first powers of two.
pub proof fn lemma_small_powers_of_two()
    ensures
        two_to(0) == 1,
        two_to(1) == 2,
        two_to(2) == 4,
        two_to(3) == 8,
        two_to(4) == 16,
        two_to(5) == 32,
        two_to(6) == 64,
        two_to(7) == 128,
{
    reveal_with_fuel(two_to, 9);
}

fn power_of_two(k: u32) -> (r: u64)
    requires
        k <= 12,
    ensures
        r == two_to(k as nat),
        1 <= r <= 4096,
    decreases k,
{
    proof {
        reveal_with_fuel(two_to, 14);
    }
    if k == 0 {
        1
    } else {
        2 * power_of_two(k - 1)
    }
}

/// The character that stands for the value `v` in Base32.
pub open spec fn base32_char(v: nat) -> char {
    if v == 0 {
        'A'
    } else if v == 1 {
        'B'
    } else if v == 2 {
        'C'
    } else if v == 3 {
        'D'
    } else if v == 4 {
        'E'
    } else if v == 5 {
        'F'
    } else if v == 6 {
        'G'
    } else if v == 7 {
        'H'
    } else if v == 8 {
        'I'
    } else if v == 9 {
        'J'
    } else if v == 10 {
        'K'
    } else if v == 11 {
        'L'
    } else if v == 12 {
        'M'
    } else if v == 13 {
        'N'
    } else if v == 14 {
        'O'
    } else if v == 15 {
        'P'
    } else if v == 16 {
        'Q'
    } else if v == 17 {
        'R'
    } else if v == 18 {
        'S'
    } else if v == 19 {
        'T'
    } else if v == 20 {
        'U'
    } else if v == 21 {
        'V'
    } else if v == 22 {
        'W'
    } else if v == 23 {
        'X'
    } else if v == 24 {
        'Y'
    } else if v == 25 {
        'Z'
    } else if v == 26 {
        '2'
    } else if v == 27 {
        '3'
    } else if v == 28 {
        '4'
    } else if v == 29 {
        '5'
    } else if v == 30 {
        '6'
    } else {
        '7'
    }
}

fn base32_str(v: u8) -> (r: &'static str)
    requires
        v < 32,
    ensures
        r@ == seq![base32_char(v as nat)],
{
    proof {
        reveal_strlit("A");
        reveal_strlit("B");
        reveal_strlit("C");
        reveal_strlit("D");
        reveal_strlit("E");
        reveal_strlit("F");
        reveal_strlit("G");
        reveal_strlit("H");
        reveal_strlit("I");
        reveal_strlit("J");
        reveal_strlit("K");
        reveal_strlit("L");
        reveal_strlit("M");
        reveal_strlit("N");
        reveal_strlit("O");
        reveal_strlit("P");
        reveal_strlit("Q");
        reveal_strlit("R");
        reveal_strlit("S");
        reveal_strlit("T");
        reveal_strlit("U");
        reveal_strlit("V");
        reveal_strlit("W");
        reveal_strlit("X");
        reveal_strlit("Y");
        reveal_strlit("Z");
        reveal_strlit("2");
        reveal_strlit("3");
        reveal_strlit("4");
        reveal_strlit("5");
        reveal_strlit("6");
        reveal_strlit("7");
    }
    let r = if v == 0 {
        "A"
    } else if v == 1 {
        "B"
    } else if v == 2 {
        "C"
    } else if v == 3 {
        "D"
    } else if v == 4 {
        "E"
    } else if v == 5 {
        "F"
    } else if v == 6 {
        "G"
    } else if v == 7 {
        "H"
    } else if v == 8 {
        "I"
    } else if v == 9 {
        "J"
    } else if v == 10 {
        "K"
    } else if v == 11 {
        "L"
    } else if v == 12 {
        "M"
    } else if v == 13 {
        "N"
    } else if v == 14 {
        "O"
    } else if v == 15 {
        "P"
    } else if v == 16 {
        "Q"
    } else if v == 17 {
        "R"
    } else if v == 18 {
        "S"
    } else if v == 19 {
        "T"
    } else if v == 20 {
        "U"
    } else if v == 21 {
        "V"
    } else if v == 22 {
        "W"
    } else if v == 23 {
        "X"
    } else if v == 24 {
        "Y"
    } else if v == 25 {
        "Z"
    } else if v == 26 {
        "2"
    } else if v == 27 {
        "3"
    } else if v == 28 {
        "4"
    } else if v == 29 {
        "5"
    } else if v == 30 {
        "6"
    } else {
        "7"
    };
    assert(r@ =~= seq![base32_char(v as nat)]);
    r
}

/// The value that a character stands for in Base32, letters in either case;
/// nothing for a character that stands for none.
pub open spec fn base32_value(c: char) -> Option<nat> {
    if c == 'A' || c == 'a' {
        Some(0)
    } else if c == 'B' || c == 'b' {
        Some(1)
    } else if c == 'C' || c == 'c' {
        Some(2)
    } else if c == 'D' || c == 'd' {
        Some(3)
    } else if c == 'E' || c == 'e' {
        Some(4)
    } else if c == 'F' || c == 'f' {
        Some(5)
    } else if c == 'G' || c == 'g' {
        Some(6)
    } else if c == 'H' || c == 'h' {
        Some(7)
    } else if c == 'I' || c == 'i' {
        Some(8)
    } else if c == 'J' || c == 'j' {
        Some(9)
    } else if c == 'K' || c == 'k' {
        Some(10)
    } else if c == 'L' || c == 'l' {
        Some(11)
    } else if c == 'M' || c == 'm' {
        Some(12)
    } else if c == 'N' || c == 'n' {
        Some(13)
    } else if c == 'O' || c == 'o' {
        Some(14)
    } else if c == 'P' || c == 'p' {
        Some(15)
    } else if c == 'Q' || c == 'q' {
        Some(16)
    } else if c == 'R' || c == 'r' {
        Some(17)
    } else if c == 'S' || c == 's' {
        Some(18)
    } else if c == 'T' || c == 't' {
        Some(19)
    } else if c == 'U' || c == 'u' {
        Some(20)
    } else if c == 'V' || c == 'v' {
        Some(21)
    } else if c == 'W' || c == 'w' {
        Some(22)
    } else if c == 'X' || c == 'x' {
        Some(23)
    } else if c == 'Y' || c == 'y' {
        Some(24)
    } else if c == 'Z' || c == 'z' {
        Some(25)
    } else if c == '2' {
        Some(26)
    } else if c == '3' {
        Some(27)
    } else if c == '4' {
        Some(28)
    } else if c == '5' {
        Some(29)
    } else if c == '6' {
        Some(30)
    } else if c == '7' {
        Some(31)
    } else {
        None
    }
}

fn value_of(c: char) -> (r: Option<u8>)
    ensures
        match r {
            Some(v) => base32_value(c) == Some(v as nat) && v < 32,
            None => base32_value(c) is None,
        },
{
    if c == 'A' || c == 'a' {
        Some(0)
    } else if c == 'B' || c == 'b' {
        Some(1)
    } else if c == 'C' || c == 'c' {
        Some(2)
    } else if c == 'D' || c == 'd' {
        Some(3)
    } else if c == 'E' || c == 'e' {
        Some(4)
    } else if c == 'F' || c == 'f' {
        Some(5)
    } else if c == 'G' || c == 'g' {
        Some(6)
    } else if c == 'H' || c == 'h' {
        Some(7)
    } else if c == 'I' || c == 'i' {
        Some(8)
    } else if c == 'J' || c == 'j' {
        Some(9)
    } else if c == 'K' || c == 'k' {
        Some(10)
    } else if c == 'L' || c == 'l' {
        Some(11)
    } else if c == 'M' || c == 'm' {
        Some(12)
    } else if c == 'N' || c == 'n' {
        Some(13)
    } else if c == 'O' || c == 'o' {
        Some(14)
    } else if c == 'P' || c == 'p' {
        Some(15)
    } else if c == 'Q' || c == 'q' {
        Some(16)
    } else if c == 'R' || c == 'r' {
        Some(17)
    } else if c == 'S' || c == 's' {
        Some(18)
    } else if c == 'T' || c == 't' {
        Some(19)
    } else if c == 'U' || c == 'u' {
        Some(20)
    } else if c == 'V' || c == 'v' {
        Some(21)
    } else if c == 'W' || c == 'w' {
        Some(22)
    } else if c == 'X' || c == 'x' {
        Some(23)
    } else if c == 'Y' || c == 'y' {
        Some(24)
    } else if c == 'Z' || c == 'z' {
        Some(25)
    } else if c == '2' {
        Some(26)
    } else if c == '3' {
        Some(27)
    } else if c == '4' {
        Some(28)
    } else if c == '5' {
        Some(29)
    } else if c == '6' {
        Some(30)
    } else if c == '7' {
        Some(31)
    } else {
        None
    }
}

/// The state of an encoder between bytes: the characters written, and the
/// bits taken in that no character stands for yet.
pub struct EncoderState {
    pub out: Seq<char>,
    pub buffer: nat,
    pub bits: nat,
}

/// The encoder's state after it has taken in one more byte: the eight new
/// bits follow the bits held, and every whole group of five bits from the
/// front is written as a character.
pub open spec fn absorb(st: EncoderState, byte: u8) -> EncoderState {
    let v = st.buffer * 256 + byte as nat;
    let total = st.bits + 8;
    if total >= 10 {
        EncoderState {
            out: st.out.push(base32_char(v / two_to((total - 5) as nat) % 32)).push(
                base32_char(v / two_to((total - 10) as nat) % 32),
            ),
            buffer: v % two_to((total - 10) as nat),
            bits: (total - 10) as nat,
        }
    } else {
        EncoderState {
            out: st.out.push(base32_char(v / two_to((total - 5) as nat) % 32)),
            buffer: v % two_to((total - 5) as nat),
            bits: (total - 5) as nat,
        }
    }
}

/// The encoder's state after it has taken in all of `data`.
pub open spec fn encoder_state(data: Seq<u8>) -> EncoderState
    decreases data.len(),
{
    if data.len() == 0 {
        EncoderState { out: Seq::empty(), buffer: 0, bits: 0 }
    } else {
        absorb(encoder_state(data.drop_last()), data.last())
    }
}

/// The Base32 form of `data` without padding: the bits of the bytes in
/// groups of five, the last group filled with zero bits.
pub open spec fn base32_text(data: Seq<u8>) -> Seq<char> {
    let st = encoder_state(data);
    if st.bits > 0 {
        st.out.push(base32_char(st.buffer * two_to((5 - st.bits) as nat) % 32))
    } else {
        st.out
    }
}

/// Base32 encoding (RFC 4648) without padding.
pub fn base32_encode(data: &[u8]) -> (r: String)
    ensures
        r@ == base32_text(data@),
{
    let mut out = String::new();
    let mut buffer: u64 = 0;
    let mut bits: u32 = 0;
    let mut i: usize = 0;
    proof {
        assert(data@.take(0) =~= Seq::<u8>::empty());
    }
    while i < data.len()
        invariant
            i <= data@.len(),
            bits < 5,
            buffer < 16,
            encoder_state(data@.take(i as int)).out == out@,
            encoder_state(data@.take(i as int)).buffer == buffer as nat,
            encoder_state(data@.take(i as int)).bits == bits as nat,
        decreases data@.len() - i,
    {
        let ghost st = encoder_state(data@.take(i as int));
        let ghost before = out@;
        proof {
            let next = data@.take(i + 1);
            assert(next.drop_last() =~= data@.take(i as int));
            assert(next.last() == data@[i as int]);
            reveal_with_fuel(two_to, 9);
        }
        let v: u64 = buffer * 256 + data[i] as u64;
        let total: u32 = bits + 8;
        let high: u64 = if bits == 0 {
            8
        } else if bits == 1 {
            16
        } else if bits == 2 {
            32
        } else if bits == 3 {
            64
        } else {
            128
        };
        let low: u64 = if bits == 2 {
            1
        } else if bits == 3 {
            2
        } else {
            4
        };
        proof {
            lemma_small_powers_of_two();
            assert(high as nat == two_to((total - 5) as nat));
            assert(total >= 10 ==> low as nat == two_to((total - 10) as nat));
            assert(v as nat == st.buffer * 256 + data@[i as int] as nat);
        }
        let first: u8 = ((v / high) % 32) as u8;
        out.append(base32_str(first));
        assert(out@ =~= before.push(base32_char(v as nat / two_to((total - 5) as nat) % 32)));
        if total >= 10 {
            let second: u8 = ((v / low) % 32) as u8;
            let ghost mid = out@;
            out.append(base32_str(second));
            assert(out@ =~= mid.push(base32_char(v as nat / two_to((total - 10) as nat) % 32)));
            buffer = v % low;
            bits = total - 10;
        } else {
            buffer = v % high;
            bits = total - 5;
        }
        i = i + 1;
    }
    assert(data@.take(data@.len() as int) =~= data@);
    proof {
        reveal_with_fuel(two_to, 9);
    }
    if bits == 1 {
        out.append(base32_str(((buffer * 16) % 32) as u8));
    } else if bits == 2 {
        out.append(base32_str(((buffer * 8) % 32) as u8));
    } else if bits == 3 {
        out.append(base32_str(((buffer * 4) % 32) as u8));
    } else if bits == 4 {
        out.append(base32_str(((buffer * 2) % 32) as u8));
    }
    assert(out@ =~= base32_text(data@));
    out
}

/// The state of a decoder between characters: the bytes written, and the
/// bits taken in that no byte holds yet.
pub struct DecoderState {
    pub out: Seq<u8>,
    pub buffer: nat,
    pub bits: nat,
}

/// The decoder's state after one more character. A `=` is passed over; a
/// character that stands for no value ends decoding; any other adds five
/// bits, and a whole group of eight bits from the front is written as a
/// byte.
pub open spec fn take_char(st: Option<DecoderState>, c: char) -> Option<DecoderState> {
    match st {
        None => None,
        Some(s) => if c == '=' {
            Some(s)
        } else {
            match base32_value(c) {
                None => None,
                Some(v) => {
                    let b = s.buffer * 32 + v;
                    let total = s.bits + 5;
                    if total >= 8 {
                        Some(
                            DecoderState {
                                out: s.out.push((b / two_to((total - 8) as nat) % 256) as u8),
                                buffer: b % two_to((total - 8) as nat),
                                bits: (total - 8) as nat,
                            },
                        )
                    } else {
                        Some(DecoderState { out: s.out, buffer: b, bits: total })
                    }
                },
            }
        },
    }
}

/// The decoder's state after all of `text`.
pub open spec fn decoder_state(text: Seq<char>) -> Option<DecoderState>
    decreases text.len(),
{
    if text.len() == 0 {
        Some(DecoderState { out: Seq::empty(), buffer: 0, bits: 0 })
    } else {
        take_char(decoder_state(text.drop_last()), text.last())
    }
}

/// The bytes that a Base32 text stands for; nothing for a text that holds a
/// character outside the alphabet. Bits beyond the last whole byte are
/// dropped.
pub open spec fn base32_bytes(text: Seq<char>) -> Option<Seq<u8>> {
    match decoder_state(text) {
        Some(st) => Some(st.out),
        None => None,
    }
}

/// Every value of five bits is the value of its character.
pub proof fn lemma_value_of_char(v: nat)
    requires
        v < 32,
    ensures
        base32_value(base32_char(v)) == Some(v),
        base32_char(v) != '=',
{
}

/// Whether a decoder has come as far as an encoder. Of the bytes `data`
/// that the encoder has taken in, the decoder has written all, and neither
/// holds a bit; or it has written all but the last, and the bits that the
/// decoder holds, followed by those that the encoder holds, are the last
/// byte.
pub open spec fn keeps_pace(ds: DecoderState, es: EncoderState, data: Seq<u8>) -> bool {
    &&& es.bits <= 4
    &&& ds.bits <= 7
    &&& es.buffer < two_to(es.bits)
    &&& ds.buffer < two_to(ds.bits)
    &&& (ds.out == data && ds.bits == 0 && es.bits == 0) || (data.len() > 0 && ds.out
        == data.drop_last() && ds.bits + es.bits == 8 && ds.buffer * two_to(es.bits) + es.buffer
        == data.last())
}

/// How the bits of a byte regroup when the encoder holds one bit.
proof fn lemma_regroup_after_one_bit(d: nat, e: nat, byte: nat)
    requires
        e < 2,
        d < 128,
        byte < 256,
    ensures
        ({
            let v = e * 256 + byte;
            let first = v / 16;
            let b = d * 32 + first;
            &&& first < 32
            &&& b / 16 == d * 2 + e
            &&& b % 16 == first % 16
            &&& (first % 16) * 16 + v % 16 == byte
            &&& first % 16 < 16
            &&& v % 16 < 16
        }),
{
    let v = e * 256 + byte;
    assert(v / 16 == e * 16 + byte / 16);
    assert(v % 16 == byte % 16);
}

/// How the bits of a byte regroup when the encoder holds two bits.
proof fn lemma_regroup_after_two_bits(d: nat, e: nat, byte: nat)
    requires
        e < 4,
        d < 64,
        byte < 256,
    ensures
        ({
            let v = e * 256 + byte;
            let first = v / 32;
            let second = v % 32;
            let b = d * 32 + first;
            &&& first < 32
            &&& b / 8 == d * 4 + e
            &&& b % 8 == first % 8
            &&& (first % 8) * 32 + second == byte
            &&& first % 8 < 8
        }),
{
    let v = e * 256 + byte;
    assert(v / 32 == e * 8 + byte / 32);
    assert(v % 32 == byte % 32);
}

/// How the bits of a byte regroup when the encoder holds three bits.
proof fn lemma_regroup_after_three_bits(d: nat, e: nat, byte: nat)
    requires
        e < 8,
        d < 32,
        byte < 256,
    ensures
        ({
            let v = e * 256 + byte;
            let first = v / 64;
            let second = v / 2 % 32;
            let b = d * 32 + first;
            &&& first < 32
            &&& b / 4 == d * 8 + e
            &&& b % 4 == first % 4
            &&& first % 4 < 4
            &&& (first % 4) * 32 + second < 128
            &&& ((first % 4) * 32 + second) * 2 + v % 2 == byte
            &&& v % 2 < 2
        }),
{
    let v = e * 256 + byte;
    assert(v / 64 == e * 4 + byte / 64);
    assert(v / 2 == e * 128 + byte / 2);
    assert(v / 2 % 32 == (byte / 2) % 32);
    assert(v % 2 == byte % 2);
}

/// How the bits of a byte regroup when the encoder holds four bits.
proof fn lemma_regroup_after_four_bits(d: nat, e: nat, byte: nat)
    requires
        e < 16,
        d < 16,
        byte < 256,
    ensures
        ({
            let v = e * 256 + byte;
            let first = v / 128;
            let second = v / 4 % 32;
            let b = d * 32 + first;
            &&& first < 32
            &&& b / 2 == d * 16 + e
            &&& b % 2 == first % 2
            &&& first % 2 < 2
            &&& (first % 2) * 32 + second < 64
            &&& ((first % 2) * 32 + second) * 4 + v % 4 == byte
            &&& v % 4 < 4
        }),
{
    let v = e * 256 + byte;
    assert(v / 128 == e * 2 + byte / 128);
    assert(v / 4 == e * 64 + byte / 4);
    assert(v / 4 % 32 == (byte / 4) % 32);
    assert(v % 4 == byte % 4);
}

/// One byte more for the encoder, and the decoder that reads what the
/// encoder writes keeps pace.
#[verifier::rlimit(60)]
proof fn lemma_pace_is_kept(ds: DecoderState, es: EncoderState, data: Seq<u8>, byte: u8)
    requires
        keeps_pace(ds, es, data),
    ensures
        ({
            let after = absorb(es, byte);
            let written = after.out.skip(es.out.len() as int);
            let read = if written.len() == 2 {
                take_char(take_char(Some(ds), written[0]), written[1])
            } else {
                take_char(Some(ds), written[0])
            };
            &&& after.out.take(es.out.len() as int) == es.out
            &&& 1 <= written.len() <= 2
            &&& read is Some
            &&& keeps_pace(read->Some_0, after, data.push(byte))
        }),
{
    lemma_small_powers_of_two();
    let v = es.buffer * 256 + byte as nat;
    let after = absorb(es, byte);
    let written = after.out.skip(es.out.len() as int);
    let longer = data.push(byte);
    assert(after.out.take(es.out.len() as int) =~= es.out);
    assert(longer.drop_last() =~= data);
    assert(longer.last() == byte);
    if es.bits > 0 {
        assert(data.drop_last().push(data.last()) =~= data);
    }
    if es.bits == 0 {
        assert(v == byte as nat);
        let first = v / 8;
        assert(v / two_to(3) % 32 == first);
        lemma_value_of_char(first);
        assert(written =~= seq![base32_char(first)]);
        let read = take_char(Some(ds), written[0]);
        assert(read == Some(DecoderState { out: ds.out, buffer: first, bits: 5 }));
        assert(after.buffer == v % 8 && after.bits == 3);
        assert(first * 8 + v % 8 == v);
        assert(keeps_pace(read->Some_0, after, longer));
    } else if es.bits == 1 {
        assert(ds.bits == 7 && es.buffer < 2 && ds.buffer < 128);
        assert(ds.buffer * 2 + es.buffer == data.last());
        let first = v / 16;
        lemma_regroup_after_one_bit(ds.buffer, es.buffer, byte as nat);
        assert(v / two_to(4) % 32 == first);
        lemma_value_of_char(first);
        assert(written =~= seq![base32_char(first)]);
        let b = ds.buffer * 32 + first;
        assert(b / 16 == ds.buffer * 2 + es.buffer);
        assert(b % 16 == first % 16);
        let read = take_char(Some(ds), written[0]);
        assert(read == Some(
            DecoderState { out: ds.out.push(data.last()), buffer: first % 16, bits: 4 },
        ));
        assert(after.buffer == v % 16 && after.bits == 4);
        assert((first % 16) * 16 + v % 16 == byte);
        assert(keeps_pace(read->Some_0, after, longer));
    } else if es.bits == 2 {
        assert(ds.bits == 6 && es.buffer < 4 && ds.buffer < 64);
        assert(ds.buffer * 4 + es.buffer == data.last());
        let first = v / 32;
        let second = v % 32;
        lemma_regroup_after_two_bits(ds.buffer, es.buffer, byte as nat);
        assert(v / two_to(5) % 32 == first);
        assert(v / two_to(0) % 32 == second);
        lemma_value_of_char(first);
        lemma_value_of_char(second);
        assert(written =~= seq![base32_char(first), base32_char(second)]);
        let b = ds.buffer * 32 + first;
        assert(b / 8 == ds.buffer * 4 + es.buffer);
        assert(b % 8 == first % 8);
        let mid = take_char(Some(ds), written[0]);
        assert(mid == Some(
            DecoderState { out: ds.out.push(data.last()), buffer: first % 8, bits: 3 },
        ));
        let c = (first % 8) * 32 + second;
        assert(c == byte);
        assert(c / two_to(0) % 256 == byte as nat);
        assert(c % two_to(0) == 0);
        let read = take_char(mid, written[1]);
        assert(read == Some(
            DecoderState { out: ds.out.push(data.last()).push(byte), buffer: 0, bits: 0 },
        ));
        assert(after.buffer == 0 && after.bits == 0);
        assert(ds.out.push(data.last()).push(byte) =~= longer);
        assert(keeps_pace(read->Some_0, after, longer));
    } else if es.bits == 3 {
        assert(ds.bits == 5 && es.buffer < 8 && ds.buffer < 32);
        assert(ds.buffer * 8 + es.buffer == data.last());
        let first = v / 64;
        let second = v / 2 % 32;
        lemma_regroup_after_three_bits(ds.buffer, es.buffer, byte as nat);
        assert(v / two_to(6) % 32 == first);
        assert(v / two_to(1) % 32 == second);
        lemma_value_of_char(first);
        lemma_value_of_char(second);
        assert(written =~= seq![base32_char(first), base32_char(second)]);
        let b = ds.buffer * 32 + first;
        assert(b / 4 == ds.buffer * 8 + es.buffer);
        assert(b % 4 == first % 4);
        let mid = take_char(Some(ds), written[0]);
        assert(mid == Some(
            DecoderState { out: ds.out.push(data.last()), buffer: first % 4, bits: 2 },
        ));
        let read = take_char(mid, written[1]);
        assert(read == Some(
            DecoderState {
                out: ds.out.push(data.last()),
                buffer: (first % 4) * 32 + second,
                bits: 7,
            },
        ));
        assert(after.buffer == v % 2 && after.bits == 1);
        assert(((first % 4) * 32 + second) * 2 + v % 2 == byte);
        assert(keeps_pace(read->Some_0, after, longer));
    } else {
        assert(es.bits == 4);
        assert(ds.bits == 4 && es.buffer < 16 && ds.buffer < 16);
        assert(ds.buffer * 16 + es.buffer == data.last());
        let first = v / 128;
        let second = v / 4 % 32;
        lemma_regroup_after_four_bits(ds.buffer, es.buffer, byte as nat);
        assert(v / two_to(7) % 32 == first);
        assert(v / two_to(2) % 32 == second);
        lemma_value_of_char(first);
        lemma_value_of_char(second);
        assert(written =~= seq![base32_char(first), base32_char(second)]);
        let b = ds.buffer * 32 + first;
        assert(b / 2 == ds.buffer * 16 + es.buffer);
        assert(b % 2 == first % 2);
        let mid = take_char(Some(ds), written[0]);
        assert(mid == Some(
            DecoderState { out: ds.out.push(data.last()), buffer: first % 2, bits: 1 },
        ));
        let read = take_char(mid, written[1]);
        assert(read == Some(
            DecoderState {
                out: ds.out.push(data.last()),
                buffer: (first % 2) * 32 + second,
                bits: 6,
            },
        ));
        assert(after.buffer == v % 4 && after.bits == 2);
        assert(((first % 2) * 32 + second) * 4 + v % 4 == byte);
        assert(keeps_pace(read->Some_0, after, longer));
    }
}

/// More characters for a decoder: the state after a text and one or two
/// characters is the state after the text with the characters taken.
proof fn lemma_decoder_takes_more(text: Seq<char>, more: Seq<char>)
    requires
        1 <= more.len() <= 2,
    ensures
        decoder_state(text + more) == (if more.len() == 2 {
            take_char(take_char(decoder_state(text), more[0]), more[1])
        } else {
            take_char(decoder_state(text), more[0])
        }),
{
    let all = text + more;
    assert(all.last() == more.last());
    if more.len() == 2 {
        let inner = all.drop_last();
        assert(inner =~= text.push(more[0]));
        assert(inner.drop_last() =~= text);
        assert(inner.last() == more[0]);
    } else {
        assert(all.drop_last() =~= text);
    }
}

/// The decoder that reads what an encoder has written keeps pace with it.
proof fn lemma_decoder_keeps_pace(data: Seq<u8>)
    ensures
        decoder_state(encoder_state(data).out) is Some,
        keeps_pace(decoder_state(encoder_state(data).out)->Some_0, encoder_state(data), data),
    decreases data.len(),
{
    lemma_small_powers_of_two();
    if data.len() == 0 {
        assert(data =~= Seq::<u8>::empty());
    } else {
        let before = data.drop_last();
        lemma_decoder_keeps_pace(before);
        let es = encoder_state(before);
        let ds = decoder_state(es.out)->Some_0;
        lemma_pace_is_kept(ds, es, before, data.last());
        let after = absorb(es, data.last());
        assert(after == encoder_state(data));
        let written = after.out.skip(es.out.len() as int);
        assert(after.out =~= after.out.take(es.out.len() as int) + written);
        assert(after.out == es.out + written);
        lemma_decoder_takes_more(es.out, written);
        assert(before.push(data.last()) =~= data);
    }
}

/// The byte that a decoder writes for the last character of a text, where
/// it holds `d` of the byte's bits and the character brings the other
/// `held` bits, `e`, filled up with zeros.
proof fn lemma_last_character(d: nat, e: nat, held: nat)
    requires
        1 <= held <= 4,
        e < two_to(held),
        d < two_to((8 - held) as nat),
        d * two_to(held) + e < 256,
    ensures
        ({
            let scale = two_to((5 - held) as nat);
            let last = e * scale % 32;
            let b = d * 32 + last;
            &&& last < 32
            &&& scale == two_to((8 - held + 5 - 8) as nat)
            &&& b / scale % 256 == d * two_to(held) + e
        }),
{
    lemma_small_powers_of_two();
    if held == 1 {
        assert(e * 16 % 32 == e * 16);
        assert((d * 32 + e * 16) / 16 == d * 2 + e);
    } else if held == 2 {
        assert(e * 8 % 32 == e * 8);
        assert((d * 32 + e * 8) / 8 == d * 4 + e);
    } else if held == 3 {
        assert(e * 4 % 32 == e * 4);
        assert((d * 32 + e * 4) / 4 == d * 8 + e);
    } else {
        assert(e * 2 % 32 == e * 2);
        assert((d * 32 + e * 2) / 2 == d * 16 + e);
    }
}

/// Decoding undoes encoding: the Base32 text of some bytes stands for these
/// bytes.
pub proof fn lemma_base32_round_trip(data: Seq<u8>)
    ensures
        base32_bytes(base32_text(data)) == Some(data),
{
    lemma_decoder_keeps_pace(data);
    let es = encoder_state(data);
    let ds = decoder_state(es.out)->Some_0;
    assert(keeps_pace(ds, es, data));
    if es.bits > 0 {
        lemma_last_character(ds.buffer, es.buffer, es.bits);
        let last = es.buffer * two_to((5 - es.bits) as nat) % 32;
        lemma_value_of_char(last);
        let text = base32_text(data);
        assert(text == es.out.push(base32_char(last)));
        assert(text.drop_last() =~= es.out);
        assert(text.last() == base32_char(last));
        assert(decoder_state(text) == take_char(Some(ds), base32_char(last)));
        assert(ds.bits + 5 >= 8);
        assert(decoder_state(text)->Some_0.out == ds.out.push(data.last()));
        assert(data.drop_last().push(data.last()) =~= data);
    } else {
        assert(base32_text(data) == es.out);
    }
}

/// Base32 decoding. Letters may be in either case and `=` is passed over.
pub fn base32_decode(encoded: &str) -> (r: Option<Vec<u8>>)
    ensures
        match r {
            Some(bytes) => base32_bytes(encoded@) == Some(bytes@),
            None => base32_bytes(encoded@) is None,
        },
{
    let text = chars_of(encoded);
    let mut out: Vec<u8> = Vec::new();
    let mut buffer: u64 = 0;
    let mut bits: u32 = 0;
    let mut i: usize = 0;
    proof {
        assert(text@.take(0) =~= Seq::<char>::empty());
        reveal_with_fuel(two_to, 9);
    }
    while i < text.len()
        invariant
            i <= text@.len(),
            text@ == encoded@,
            bits < 8,
            buffer < 128,
            buffer < two_to(bits as nat),
            decoder_state(text@.take(i as int)) is Some,
            decoder_state(text@.take(i as int))->0.out == out@,
            decoder_state(text@.take(i as int))->0.buffer == buffer as nat,
            decoder_state(text@.take(i as int))->0.bits == bits as nat,
        decreases text@.len() - i,
    {
        let ghost st = decoder_state(text@.take(i as int));
        proof {
            let next = text@.take(i + 1);
            assert(next.drop_last() =~= text@.take(i as int));
            assert(next.last() == text@[i as int]);
            reveal_with_fuel(two_to, 9);
        }
        let c = text[i];
        if c != '=' {
            match value_of(c) {
                None => {
                    proof {
                        lemma_decoder_stays_failed(text@, i + 1);
                    }
                    return None;
                },
                Some(v) => {
                    let b: u64 = buffer * 32 + v as u64;
                    let total: u32 = bits + 5;
                    let ghost before = out@;
                    proof {
                        lemma_small_powers_of_two();
                        assert(b as nat == st->0.buffer * 32 + v as nat);
                    }
                    if total >= 8 {
                        let low: u64 = if bits == 3 {
                            1
                        } else if bits == 4 {
                            2
                        } else if bits == 5 {
                            4
                        } else if bits == 6 {
                            8
                        } else {
                            16
                        };
                        assert(low as nat == two_to((total - 8) as nat));
                        let byte: u8 = ((b / low) % 256) as u8;
                        out.push(byte);
                        assert(out@ =~= before.push(
                            (b as nat / two_to((total - 8) as nat) % 256) as u8,
                        ));
                        buffer = b % low;
                        bits = total - 8;
                    } else {
                        buffer = b;
                        bits = total;
                    }
                },
            }
        }
        i = i + 1;
    }
    assert(text@.take(text@.len() as int) =~= text@);
    Some(out)
}

/// Once decoding has failed, it has failed for every longer text.
proof fn lemma_decoder_stays_failed(text: Seq<char>, n: int)
    requires
        0 <= n <= text.len(),
        decoder_state(text.take(n)) is None,
    ensures
        decoder_state(text) is None,
    decreases text.len() - n,
{
    if n == text.len() {
        assert(text.take(n) =~= text);
    } else {
        let next = text.take(n + 1);
        assert(next.drop_last() =~= text.take(n));
        lemma_decoder_stays_failed(text, n + 1);
    }
}

/// The HMAC-SHA1 of `data` under `key`, as the crates `hmac` and `sha1`
/// compute it.
pub uninterp spec fn hmac_sha1_digest(key: Seq<u8>, data: Seq<u8>) -> Seq<u8>;

/// The HMAC-SHA256 of `data` under `key`, as the crates `hmac` and `sha2`
/// compute it.
pub uninterp spec fn hmac_sha256_digest(key: Seq<u8>, data: Seq<u8>) -> Seq<u8>;

/// The HMAC-SHA512 of `data` under `key`, as the crates `hmac` and `sha2`
/// compute it.
pub uninterp spec fn hmac_sha512_digest(key: Seq<u8>, data: Seq<u8>) -> Seq<u8>;

/// Computes `Hmac<Sha1>` of the `hmac` crate over `data`. The contract names
/// the result and states its length, 20 bytes.
#[verifier::external_body]
fn hmac_sha1(key: &[u8], data: &[u8]) -> (r: Vec<u8>)
    ensures
        r@ == hmac_sha1_digest(key@, data@),
        r@.len() == 20,
{
    let mut mac = hmac::Hmac::<sha1::Sha1>::new_from_slice(key).unwrap();
    mac.update(data);
    mac.finalize().into_bytes().to_vec()
}

/// Computes `Hmac<Sha256>` of the `hmac` crate over `data`. The contract
/// names the result and states its length, 32 bytes.
#[verifier::external_body]
fn hmac_sha256(key: &[u8], data: &[u8]) -> (r: Vec<u8>)
    ensures
        r@ == hmac_sha256_digest(key@, data@),
        r@.len() == 32,
{
    let mut mac = hmac::Hmac::<sha2::Sha256>::new_from_slice(key).unwrap();
    mac.update(data);
    mac.finalize().into_bytes().to_vec()
}

/// Computes `Hmac<Sha512>` of the `hmac` crate over `data`. The contract
/// names the result and states its length, 64 bytes.
#[verifier::external_body]
fn hmac_sha512(key: &[u8], data: &[u8]) -> (r: Vec<u8>)
    ensures
        r@ == hmac_sha512_digest(key@, data@),
        r@.len() == 64,
{
    let mut mac = hmac::Hmac::<sha2::Sha512>::new_from_slice(key).unwrap();
    mac.update(data);
    mac.finalize().into_bytes().to_vec()
}

/// The HMAC of `data` under `key` with the algorithm given.
pub open spec fn hmac_digest(algorithm: TotpAlgorithm, key: Seq<u8>, data: Seq<u8>) -> Seq<u8> {
    match algorithm {
        TotpAlgorithm::SHA1 => hmac_sha1_digest(key, data),
        TotpAlgorithm::SHA256 => hmac_sha256_digest(key, data),
        TotpAlgorithm::SHA512 => hmac_sha512_digest(key, data),
    }
}

/// Compute HMAC with the specified algorithm.
pub fn compute_hmac(key: &[u8], data: &[u8], algorithm: TotpAlgorithm) -> (r: Vec<u8>)
    ensures
        r@ == hmac_digest(algorithm, key@, data@),
        r@.len() >= 20,
{
    match algorithm {
        TotpAlgorithm::SHA1 => hmac_sha1(key, data),
        TotpAlgorithm::SHA256 => hmac_sha256(key, data),
        TotpAlgorithm::SHA512 => hmac_sha512(key, data),
    }
}

/// The 31 bits that dynamic truncation takes from an HMAC: four bytes from
/// the offset that the last byte's low four bits give, without the first
/// one's high bit.
pub open spec fn truncated(digest: Seq<u8>) -> nat {
    let offset = digest.last() as nat % 16;
    (digest[offset as int] as nat % 128) * 16777216 + digest[offset as int + 1] as nat * 65536
        + digest[offset as int + 2] as nat * 256 + digest[offset as int + 3] as nat
}

/// 10 to the power `k`.
pub open spec fn ten_to(k: nat) -> nat
    decreases k,
{
    if k == 0 {
        1
    } else {
        10 * ten_to((k - 1) as nat)
    }
}

fn power_of_ten(k: u32) -> (r: u64)
    requires
        k <= 9,
    ensures
        r == ten_to(k as nat),
        1 <= r <= 1_000_000_000,
    decreases k,
{
    proof {
        reveal_with_fuel(ten_to, 11);
    }
    if k == 0 {
        1
    } else {
        10 * power_of_ten(k - 1)
    }
}

/// The bytes of a counter, most significant first.
pub open spec fn counter_bytes(counter: u64) -> Seq<u8> {
    spec_u64_to_le_bytes(counter).reverse()
}

fn counter_to_bytes(counter: u64) -> (r: Vec<u8>)
    ensures
        r@ == counter_bytes(counter),
{
    let le = u64_to_le_bytes(counter);
    proof {
        lemma_auto_spec_u64_to_from_le_bytes();
    }
    let mut out: Vec<u8> = Vec::new();
    let mut i: usize = 8;
    while i > 0
        invariant
            i <= 8,
            le@.len() == 8,
            out@.len() == 8 - i,
            forall|k: int| 0 <= k < out@.len() ==> out@[k] == le@[7 - k],
        decreases i,
    {
        out.push(le[i - 1]);
        i = i - 1;
    }
    assert(out@ =~= le@.reverse());
    out
}

/// The one-time password of `key` for the time given: the truncated HMAC of
/// the key and the number of the period, reduced to `digits` digits and
/// written with zeros in front.
pub open spec fn totp_text(
    key: Seq<u8>,
    timestamp: u64,
    period: u64,
    digits: u32,
    algorithm: TotpAlgorithm,
) -> Seq<char> {
    zero_padded(
        truncated(hmac_digest(algorithm, key, counter_bytes((timestamp / period) as u64)))
            % ten_to(digits as nat),
        digits as nat,
    )
}

/// The one-time password for a digest that was computed.
pub fn code_from_digest(digest: &[u8], digits: u32) -> (r: String)
    requires
        digest@.len() >= 20,
        digits <= 9,
    ensures
        r@ == zero_padded(truncated(digest@) % ten_to(digits as nat), digits as nat),
{
    let offset = (digest[digest.len() - 1] % 16) as usize;
    let binary: u64 = (digest[offset] % 128) as u64 * 16777216 + digest[offset + 1] as u64 * 65536
        + digest[offset + 2] as u64 * 256 + digest[offset + 3] as u64;
    let otp = binary % power_of_ten(digits);
    pad_with_zeros(otp, digits)
}

/// Generate TOTP code for a given timestamp.
pub fn generate_totp(secret: &str, timestamp: u64, config: &TotpConfig) -> (r: AuthResult<String>)
    requires
        config.period > 0,
        config.digits <= 9,
    ensures
        match base32_bytes(secret@) {
            None => r is Err && r->Err_0 is MfaError && r->Err_0->MfaError_0@ == "Invalid secret"@,
            Some(key) => r is Ok && r->Ok_0@ == totp_text(
                key,
                timestamp,
                config.period,
                config.digits,
                config.algorithm,
            ),
        },
{
    let secret_bytes = match base32_decode(secret) {
        Some(bytes) => bytes,
        None => {
            return Err(AuthError::MfaError(owned("Invalid secret")));
        },
    };
    let counter = timestamp / config.period;
    let counter_bytes = counter_to_bytes(counter);
    let hash = compute_hmac(secret_bytes.as_slice(), counter_bytes.as_slice(), config.algorithm);
    Ok(code_from_digest(hash.as_slice(), config.digits))
}

/// The time `k` periods after `now`, capped at the 64-bit range.
pub open spec fn time_after(now: u64, k: nat, period: u64) -> u64 {
    if now + k * period > u64::MAX {
        u64::MAX
    } else {
        (now + k * period) as u64
    }
}

/// The time `k` periods before `now`, zero when that is before the epoch.
pub open spec fn time_before(now: u64, k: nat, period: u64) -> u64 {
    if k * period > now {
        0
    } else {
        (now - k * period) as u64
    }
}

/// Whether `code` is the password of `key` for the period of `now` shifted
/// by `k` periods to either side.
pub open spec fn matches_at_shift(
    key: Seq<u8>,
    code: Seq<char>,
    now: u64,
    k: nat,
    period: u64,
    digits: u32,
    algorithm: TotpAlgorithm,
) -> bool {
    code == totp_text(key, time_after(now, k, period), period, digits, algorithm) || code
        == totp_text(key, time_before(now, k, period), period, digits, algorithm)
}

/// Whether `code` is the password of `key` for the period of `now` or for
/// one of the `skew` periods on either side of it.
pub open spec fn totp_is_valid(
    key: Seq<u8>,
    code: Seq<char>,
    now: u64,
    skew: u32,
    period: u64,
    digits: u32,
    algorithm: TotpAlgorithm,
) -> bool {
    exists|k: nat| k <= skew && matches_at_shift(key, code, now, k, period, digits, algorithm)
}

fn shifted_times(now: u64, k: u32, period: u64) -> (r: (u64, u64))
    ensures
        r.0 == time_after(now, k as nat, period),
        r.1 == time_before(now, k as nat, period),
{
    assert(k as nat * period as nat <= 0xFFFF_FFFF * 0xFFFF_FFFF_FFFF_FFFF) by (nonlinear_arith)
        requires
            k <= 0xFFFF_FFFF,
            period <= 0xFFFF_FFFF_FFFF_FFFF,
    ;
    let shift: u128 = (k as u128) * (period as u128);
    let later: u128 = now as u128 + shift;
    let after = if later > u64::MAX as u128 {
        u64::MAX
    } else {
        later as u64
    };
    let before = if shift > now as u128 {
        0
    } else {
        (now as u128 - shift) as u64
    };
    (after, before)
}

/// Verify a TOTP code at the time `now`, in seconds since the epoch.
pub fn verify_totp(secret: &str, code: &str, config: &TotpConfig, now: u64) -> (r: AuthResult<bool>)
    requires
        config.period > 0,
        config.digits <= 9,
    ensures
        match base32_bytes(secret@) {
            None => r is Err && r->Err_0 is MfaError && r->Err_0->MfaError_0@ == "Invalid secret"@,
            Some(key) => r == Ok::<bool, AuthError>(
                totp_is_valid(
                    key,
                    code@,
                    now,
                    config.skew,
                    config.period,
                    config.digits,
                    config.algorithm,
                ),
            ),
        },
{
    let mut offset: u32 = 0;
    loop
        invariant
            config.period > 0,
            config.digits <= 9,
            offset <= config.skew,
            base32_bytes(secret@) is Some ==> forall|k: nat|
                k < offset ==> !matches_at_shift(
                    base32_bytes(secret@)->0,
                    code@,
                    now,
                    k,
                    config.period,
                    config.digits,
                    config.algorithm,
                ),
        decreases config.skew - offset,
    {
        let times = shifted_times(now, offset, config.period);
        match generate_totp(secret, times.0, config) {
            Err(e) => {
                return Err(e);
            },
            Ok(expected) => {
                if same_text(expected.as_str(), code) {
                    assert(matches_at_shift(
                        base32_bytes(secret@)->0,
                        code@,
                        now,
                        offset as nat,
                        config.period,
                        config.digits,
                        config.algorithm,
                    ));
                    return Ok(true);
                }
            },
        }
        match generate_totp(secret, times.1, config) {
            Err(e) => {
                return Err(e);
            },
            Ok(expected) => {
                if same_text(expected.as_str(), code) {
                    assert(matches_at_shift(
                        base32_bytes(secret@)->0,
                        code@,
                        now,
                        offset as nat,
                        config.period,
                        config.digits,
                        config.algorithm,
                    ));
                    return Ok(true);
                }
            },
        }
        if offset == config.skew {
            return Ok(false);
        }
        offset = offset + 1;
    }
}

/// The `otpauth` URI that an authenticator app reads from a QR code.
pub open spec fn totp_uri_text(secret: Seq<char>, email: Seq<char>, config: TotpConfig) -> Seq<
    char,
> {
    "otpauth://totp/"@ + url_encoded(config.issuer@) + ":"@ + url_encoded(email) + "?secret="@
        + secret + "&issuer="@ + url_encoded(config.issuer@) + "&algorithm="@
        + config.algorithm.name_text() + "&digits="@ + decimal(config.digits as nat) + "&period="@
        + decimal(config.period as nat)
}

/// Generate otpauth:// URI for QR code.
pub fn generate_totp_uri(secret: &str, email: &str, config: &TotpConfig) -> (r: String)
    ensures
        r@ == totp_uri_text(secret@, email@, *config),
{
    let issuer = url_encode(config.issuer.as_str());
    let address = url_encode(email);
    let mut out = owned("otpauth://totp/");
    out.append(issuer.as_str());
    out.append(":");
    out.append(address.as_str());
    out.append("?secret=");
    out.append(secret);
    out.append("&issuer=");
    out.append(issuer.as_str());
    out.append("&algorithm=");
    out.append(config.algorithm.as_str());
    out.append("&digits=");
    push_decimal(&mut out, config.digits as u64);
    out.append("&period=");
    push_decimal(&mut out, config.period);
    out
}

/// Generate a random secret: 20 random bytes in Base32.
pub fn generate_secret() -> (r: String)
    ensures
        exists|bytes: Seq<u8>| bytes.len() == 20 && r@ == base32_text(bytes),
{
    let bytes = random_bytes(20);
    base32_encode(bytes.as_slice())
}

/// The recovery code made of five bytes: their ten hexadecimal digits in
/// the groups 4-4-2.
pub open spec fn recovery_code_text(bytes: Seq<u8>) -> Seq<char> {
    hex_fixed(bytes[0] as nat, 2) + hex_fixed(bytes[1] as nat, 2) + "-"@ + hex_fixed(
        bytes[2] as nat,
        2,
    ) + hex_fixed(bytes[3] as nat, 2) + "-"@ + hex_fixed(bytes[4] as nat, 2)
}

/// The recovery code made of five bytes.
pub fn recovery_code_from(bytes: &[u8]) -> (r: String)
    requires
        bytes@.len() == 5,
    ensures
        r@ == recovery_code_text(bytes@),
{
    let mut out = String::new();
    push_hex(&mut out, bytes[0] as u128, 2);
    push_hex(&mut out, bytes[1] as u128, 2);
    out.append("-");
    push_hex(&mut out, bytes[2] as u128, 2);
    push_hex(&mut out, bytes[3] as u128, 2);
    out.append("-");
    push_hex(&mut out, bytes[4] as u128, 2);
    assert(out@ =~= recovery_code_text(bytes@));
    out
}

/// Whether a text is the recovery code of some five bytes.
pub open spec fn is_recovery_code(text: Seq<char>) -> bool {
    exists|bytes: Seq<u8>| bytes.len() == 5 && text == recovery_code_text(bytes)
}

/// Generate recovery codes, each from five random bytes.
pub fn generate_recovery_codes(count: usize) -> (r: Vec<String>)
    ensures
        r@.len() == count,
        forall|i: int| 0 <= i < count ==> is_recovery_code(#[trigger] r@[i]@),
{
    let mut codes: Vec<String> = Vec::new();
    let mut i: usize = 0;
    while i < count
        invariant
            i <= count,
            codes@.len() == i,
            forall|k: int| 0 <= k < i ==> is_recovery_code(#[trigger] codes@[k]@),
        decreases count - i,
    {
        let bytes = random_bytes(5);
        let code = recovery_code_from(bytes.as_slice());
        assert(is_recovery_code(code@));
        let ghost before = codes@;
        codes.push(code);
        assert forall|k: int| 0 <= k < i + 1 implies is_recovery_code(#[trigger] codes@[k]@) by {
            if k < i {
                assert(codes@[k] == before[k]);
            }
        }
        i = i + 1;
    }
    codes
}

/// The SHA-256 of `data`, as the crate `sha2` computes it.
pub uninterp spec fn sha256_digest(data: Seq<u8>) -> Seq<u8>;

/// Computes `Sha256` of the `sha2` crate over `data`. The contract names the
/// result and states its length, 32 bytes.
#[verifier::external_body]
pub(crate) fn sha256(data: &[u8]) -> (r: Vec<u8>)
    ensures
        r@ == sha256_digest(data@),
        r@.len() == 32,
{
    let mut hasher = sha2::Sha256::new();
    hasher.update(data);
    hasher.finalize().to_vec()
}

/// The hexadecimal digits of some bytes, two for each, in lower case.
pub open spec fn hex_text(bytes: Seq<u8>) -> Seq<char>
    decreases bytes.len(),
{
    if bytes.len() == 0 {
        Seq::<char>::empty()
    } else {
        hex_text(bytes.drop_last()) + hex_fixed(bytes.last() as nat, 2)
    }
}

/// The hexadecimal digits of some bytes, two for each, in lower case.
pub fn hex_encode(bytes: &[u8]) -> (r: String)
    ensures
        r@ == hex_text(bytes@),
{
    let mut out = String::new();
    let mut i: usize = 0;
    assert(bytes@.take(0) =~= Seq::<u8>::empty());
    while i < bytes.len()
        invariant
            i <= bytes@.len(),
            out@ == hex_text(bytes@.take(i as int)),
        decreases bytes@.len() - i,
    {
        proof {
            let next = bytes@.take(i + 1);
            assert(next.drop_last() =~= bytes@.take(i as int));
            assert(next.last() == bytes@[i as int]);
        }
        push_hex(&mut out, bytes[i] as u128, 2);
        i = i + 1;
    }
    assert(bytes@.take(bytes@.len() as int) =~= bytes@);
    out
}

/// The form in which a recovery code is hashed: without hyphens, in lower
/// case.
pub open spec fn normalized_code(code: Seq<char>) -> Seq<char> {
    lowercased(code.filter(|c: char| c != '-'))
}

/// Hash a recovery code for storage: the SHA-256 of its normalized form, in
/// hexadecimal digits.
pub fn hash_recovery_code(code: &str) -> (r: String)
    ensures
        r@ == hex_text(sha256_digest(vstd::utf8::encode_utf8(normalized_code(code@)))),
{
    let plain = without_char(code, '-');
    let normalized = to_lowercase(plain.as_str());
    let digest = sha256(normalized.as_str().as_bytes());
    hex_encode(digest.as_slice())
}

/// An MFA factor enrolled for a user. Identifiers are the 128-bit values of
/// UUIDs; times are milliseconds since the epoch.
#[derive(Debug, Clone, PartialEq, Eq)]
pub struct MfaFactor {
    pub id: u128,
    pub user_id: u128,
    pub factor_type: MfaFactorType,
    pub friendly_name: Option<String>,
    pub status: MfaFactorStatus,
    /// Secret key in Base32.
    pub secret: String,
    pub created_at_ms: i64,
    pub updated_at_ms: i64,
}

impl MfaFactor {
    /// A TOTP factor with the identifier and the secret given, not yet
    /// verified.
    pub fn with_secret(
        id: u128,
        user_id: u128,
        friendly_name: Option<String>,
        secret: String,
        now_ms: i64,
    ) -> (r: Self)
        ensures
            r == (MfaFactor {
                id,
                user_id,
                factor_type: MfaFactorType::TOTP,
                friendly_name,
                status: MfaFactorStatus::Unverified,
                secret,
                created_at_ms: now_ms,
                updated_at_ms: now_ms,
            }),
    {
        MfaFactor {
            id,
            user_id,
            factor_type: MfaFactorType::TOTP,
            friendly_name,
            status: MfaFactorStatus::Unverified,
            secret,
            created_at_ms: now_ms,
            updated_at_ms: now_ms,
        }
    }

    /// A TOTP factor with a fresh identifier and a fresh secret, not yet
    /// verified.
    pub fn new_totp(user_id: u128, friendly_name: Option<String>, now_ms: i64) -> (r: Self)
        ensures
            r.user_id == user_id,
            r.factor_type == MfaFactorType::TOTP,
            r.friendly_name == friendly_name,
            r.status == MfaFactorStatus::Unverified,
            r.created_at_ms == now_ms,
            r.updated_at_ms == now_ms,
            exists|bytes: Seq<u8>| bytes.len() == 20 && r.secret@ == base32_text(bytes),
    {
        let id = random_uuid();
        let secret = generate_secret();
        MfaFactor::with_secret(id, user_id, friendly_name, secret, now_ms)
    }

    /// Whether the factor is active: verified and not disabled.
    pub fn is_active(&self) -> (r: bool)
        ensures
            r == (self.status == MfaFactorStatus::Verified),
    {
        match self.status {
            MfaFactorStatus::Verified => true,
            _ => false,
        }
    }

    /// An equal factor.
    pub fn duplicate(&self) -> (r: Self)
        ensures
            r == *self,
    {
        MfaFactor {
            id: self.id,
            user_id: self.user_id,
            factor_type: self.factor_type,
            friendly_name: match &self.friendly_name {
                Some(name) => Some(name.clone()),
                None => None,
            },
            status: self.status,
            secret: self.secret.clone(),
            created_at_ms: self.created_at_ms,
            updated_at_ms: self.updated_at_ms,
        }
    }
}

/// Where MFA factors are kept. The contracts say what a call that succeeds
/// gives or does; whether a call succeeds is the repository's own matter.
pub trait MfaRepository {
    /// The factors that the repository keeps, in the order in which they
    /// were created.
    spec fn kept(&self) -> Seq<MfaFactor>;

    /// Find all factors for a user, in the order in which they are kept.
    fn find_by_user_id(&self, user_id: u128) -> (r: AuthResult<Vec<MfaFactor>>)
        ensures
            r is Ok ==> r->Ok_0@ == factors_of(self.kept(), user_id),
    ;

    /// Find factor by ID: the first factor kept that has it.
    fn find_by_id(&self, factor_id: u128) -> (r: AuthResult<Option<MfaFactor>>)
        ensures
            r is Ok ==> r->Ok_0 == factor_with_id(self.kept(), factor_id),
    ;

    /// Create a new factor: it is kept after the others and handed back.
    fn create(&mut self, factor: MfaFactor) -> (r: AuthResult<MfaFactor>)
        ensures
            r is Ok ==> r->Ok_0 == factor && final(self).kept() == old(self).kept().push(factor),
    ;

    /// Update factor status, and the time of the factor's last change.
    fn update_status(&mut self, factor_id: u128, status: MfaFactorStatus, now_ms: i64) -> (r:
        AuthResult<()>)
        ensures
            r is Ok ==> final(self).kept() == with_status(
                old(self).kept(),
                factor_id,
                status,
                now_ms,
            ),
    ;

    /// Delete a factor.
    fn delete(&mut self, factor_id: u128) -> (r: AuthResult<()>)
        ensures
            r is Ok ==> final(self).kept() == factors_without(old(self).kept(), factor_id),
    ;
}

/// The first factor with the identifier given, if there is one.
pub open spec fn factor_with_id(factors: Seq<MfaFactor>, factor_id: u128) -> Option<MfaFactor> {
    match position_of_factor(factors, factor_id) {
        Some(i) => Some(factors[i]),
        None => None,
    }
}

/// The factors after the first factor with the identifier given has taken
/// a status at the time given; the factors as they are where none has the
/// identifier.
pub open spec fn with_status(
    factors: Seq<MfaFactor>,
    factor_id: u128,
    status: MfaFactorStatus,
    now_ms: i64,
) -> Seq<MfaFactor> {
    match position_of_factor(factors, factor_id) {
        Some(i) => factors.update(i, MfaFactor { status, updated_at_ms: now_ms, ..factors[i] }),
        None => factors,
    }
}

/// The factors of a user among `factors`, in order.
pub open spec fn factors_of(factors: Seq<MfaFactor>, user_id: u128) -> Seq<MfaFactor> {
    factors.filter(|f: MfaFactor| f.user_id == user_id)
}

/// The factors other than the one with the identifier given, in order.
pub open spec fn factors_without(factors: Seq<MfaFactor>, factor_id: u128) -> Seq<MfaFactor> {
    factors.filter(|f: MfaFactor| f.id != factor_id)
}

/// The position of the first factor with the identifier given, if there is
/// one.
pub open spec fn position_of_factor(factors: Seq<MfaFactor>, factor_id: u128) -> Option<int>
    decreases factors.len(),
{
    if factors.len() == 0 {
        None
    } else {
        match position_of_factor(factors.drop_last(), factor_id) {
            Some(i) => Some(i),
            None => if factors.last().id == factor_id {
                Some(factors.len() - 1)
            } else {
                None
            },
        }
    }
}

proof fn lemma_position_of_factor(factors: Seq<MfaFactor>, factor_id: u128)
    ensures
        match position_of_factor(factors, factor_id) {
            Some(i) => 0 <= i < factors.len() && factors[i].id == factor_id && forall|k: int|
                0 <= k < i ==> factors[k].id != factor_id,
            None => forall|k: int| 0 <= k < factors.len() ==> factors[k].id != factor_id,
        },
    decreases factors.len(),
{
    if factors.len() > 0 {
        lemma_position_of_factor(factors.drop_last(), factor_id);
        let before = factors.drop_last();
        assert forall|k: int| 0 <= k < before.len() implies before[k] == factors[k] by {}
    }
}

/// In-memory MFA repository.
#[derive(Debug)]
pub struct InMemoryMfaRepository {
    factors: Vec<MfaFactor>,
}

impl InMemoryMfaRepository {
    /// An empty repository.
    pub fn new() -> (r: Self)
        ensures
            r.kept() == Seq::<MfaFactor>::empty(),
    {
        InMemoryMfaRepository { factors: Vec::new() }
    }

    fn position(&self, factor_id: u128) -> (r: Option<usize>)
        ensures
            match r {
                Some(i) => position_of_factor(self.kept(), factor_id) == Some(i as int) && i
                    < self.kept().len(),
                None => position_of_factor(self.kept(), factor_id) is None,
            },
    {
        let mut i: usize = 0;
        assert(self.factors@.take(0) =~= Seq::<MfaFactor>::empty());
        while i < self.factors.len()
            invariant
                i <= self.factors@.len(),
                position_of_factor(self.factors@.take(i as int), factor_id) is None,
            decreases self.factors@.len() - i,
        {
            proof {
                let next = self.factors@.take(i + 1);
                assert(next.drop_last() =~= self.factors@.take(i as int));
                assert(next.last() == self.factors@[i as int]);
            }
            if self.factors[i].id == factor_id {
                proof {
                    lemma_position_persists(self.factors@, factor_id, i + 1);
                }
                return Some(i);
            }
            i = i + 1;
        }
        assert(self.factors@.take(self.factors@.len() as int) =~= self.factors@);
        None
    }
}

proof fn lemma_position_persists(factors: Seq<MfaFactor>, factor_id: u128, n: int)
    requires
        0 <= n <= factors.len(),
        position_of_factor(factors.take(n), factor_id) is Some,
    ensures
        position_of_factor(factors, factor_id) == position_of_factor(factors.take(n), factor_id),
    decreases factors.len() - n,
{
    if n == factors.len() {
        assert(factors.take(n) =~= factors);
    } else {
        let next = factors.take(n + 1);
        assert(next.drop_last() =~= factors.take(n));
        lemma_position_persists(factors, factor_id, n + 1);
    }
}

impl Default for InMemoryMfaRepository {
    fn default() -> (r: Self)
        ensures
            r.kept() == Seq::<MfaFactor>::empty(),
    {
        InMemoryMfaRepository::new()
    }
}

impl MfaRepository for InMemoryMfaRepository {
    closed spec fn kept(&self) -> Seq<MfaFactor> {
        self.factors@
    }

    fn find_by_user_id(&self, user_id: u128) -> (r: AuthResult<Vec<MfaFactor>>)
        ensures
            r is Ok,
            r->Ok_0@ == factors_of(self.kept(), user_id),
    {
        let mut out: Vec<MfaFactor> = Vec::new();
        let mut i: usize = 0;
        proof {
            assert(self.factors@.take(0) =~= Seq::<MfaFactor>::empty());
            reveal(Seq::filter);
        }
        while i < self.factors.len()
            invariant
                i <= self.factors@.len(),
                out@ == factors_of(self.factors@.take(i as int), user_id),
            decreases self.factors@.len() - i,
        {
            proof {
                let next = self.factors@.take(i + 1);
                assert(next.drop_last() =~= self.factors@.take(i as int));
                assert(next.last() == self.factors@[i as int]);
                reveal(Seq::filter);
            }
            if self.factors[i].user_id == user_id {
                out.push(self.factors[i].duplicate());
            }
            i = i + 1;
        }
        assert(self.factors@.take(self.factors@.len() as int) =~= self.factors@);
        Ok(out)
    }

    fn find_by_id(&self, factor_id: u128) -> (r: AuthResult<Option<MfaFactor>>)
        ensures
            r == Ok::<Option<MfaFactor>, AuthError>(factor_with_id(self.kept(), factor_id)),
    {
        match self.position(factor_id) {
            Some(i) => Ok(Some(self.factors[i].duplicate())),
            None => Ok(None),
        }
    }

    fn create(&mut self, factor: MfaFactor) -> (r: AuthResult<MfaFactor>)
        ensures
            r == Ok::<MfaFactor, AuthError>(factor),
            final(self).kept() == old(self).kept().push(factor),
    {
        let copy = factor.duplicate();
        self.factors.push(factor);
        Ok(copy)
    }

    fn update_status(&mut self, factor_id: u128, status: MfaFactorStatus, now_ms: i64) -> (r:
        AuthResult<()>)
        ensures
            r is Ok,
            final(self).kept() == with_status(old(self).kept(), factor_id, status, now_ms),
    {
        match self.position(factor_id) {
            Some(i) => {
                let mut changed = self.factors[i].duplicate();
                changed.status = status;
                changed.updated_at_ms = now_ms;
                self.factors.set(i, changed);
            },
            None => {},
        }
        Ok(())
    }

    fn delete(&mut self, factor_id: u128) -> (r: AuthResult<()>)
        ensures
            r is Ok,
            final(self).kept() == factors_without(old(self).kept(), factor_id),
    {
        let mut kept: Vec<MfaFactor> = Vec::new();
        let mut i: usize = 0;
        proof {
            assert(self.factors@.take(0) =~= Seq::<MfaFactor>::empty());
            reveal(Seq::filter);
        }
        while i < self.factors.len()
            invariant
                i <= self.factors@.len(),
                self.factors@ == old(self).factors@,
                kept@ == factors_without(self.factors@.take(i as int), factor_id),
            decreases self.factors@.len() - i,
        {
            proof {
                let next = self.factors@.take(i + 1);
                assert(next.drop_last() =~= self.factors@.take(i as int));
                assert(next.last() == self.factors@[i as int]);
                reveal(Seq::filter);
            }
            if self.factors[i].id != factor_id {
                kept.push(self.factors[i].duplicate());
            }
            i = i + 1;
        }
        assert(self.factors@.take(self.factors@.len() as int) =~= self.factors@);
        self.factors = kept;
        Ok(())
    }
}

/// The first active TOTP factor among `factors`, if there is one.
pub open spec fn first_active(factors: Seq<MfaFactor>) -> Option<MfaFactor>
    decreases factors.len(),
{
    if factors.len() == 0 {
        None
    } else if factors[0].factor_type == MfaFactorType::TOTP && factors[0].status
        == MfaFactorStatus::Verified {
        Some(factors[0])
    } else {
        first_active(factors.drop_first())
    }
}

/// Whether `r` is the error of MFA with the message given.
pub open spec fn is_mfa_error(r: AuthResult<bool>, message: Seq<char>) -> bool {
    r is Err && r->Err_0 is MfaError && r->Err_0->MfaError_0@ == message
}

/// Whether `r` is the verdict on `code` under `secret` at `now`.
pub open spec fn is_totp_verdict(
    r: AuthResult<bool>,
    secret: Seq<char>,
    code: Seq<char>,
    config: TotpConfig,
    now: u64,
) -> bool {
    match base32_bytes(secret) {
        None => is_mfa_error(r, "Invalid secret"@),
        Some(key) => r == Ok::<bool, AuthError>(
            totp_is_valid(key, code, now, config.skew, config.period, config.digits, config.algorithm),
        ),
    }
}

/// Verifies a code against the factors of a user: against the first active
/// TOTP factor, and with none the verification fails.
pub fn verify_code_among(factors: &Vec<MfaFactor>, code: &str, config: &TotpConfig, now: u64) -> (r:
    AuthResult<bool>)
    requires
        config.period > 0,
        config.digits <= 9,
    ensures
        match first_active(factors@) {
            None => is_mfa_error(r, "No active TOTP factor"@),
            Some(factor) => is_totp_verdict(r, factor.secret@, code@, *config, now),
        },
{
    let mut i: usize = 0;
    assert(factors@.skip(0) =~= factors@);
    while i < factors.len()
        invariant
            i <= factors@.len(),
            config.period > 0,
            config.digits <= 9,
            first_active(factors@) == first_active(factors@.skip(i as int)),
        decreases factors@.len() - i,
    {
        proof {
            let rest = factors@.skip(i as int);
            assert(rest[0] == factors@[i as int]);
            assert(rest.drop_first() =~= factors@.skip(i + 1));
        }
        if factors[i].is_active() {
            return verify_totp(factors[i].secret.as_str(), code, config, now);
        }
        i = i + 1;
    }
    Err(AuthError::MfaError(owned("No active TOTP factor")))
}

/// Whether one of the factors is active.
pub fn any_active(factors: &Vec<MfaFactor>) -> (r: bool)
    ensures
        r == has_active(factors@),
{
    let mut i: usize = 0;
    while i < factors.len()
        invariant
            i <= factors@.len(),
            forall|k: int|
                0 <= k < i ==> (#[trigger] factors@[k]).status != MfaFactorStatus::Verified,
        decreases factors@.len() - i,
    {
        if factors[i].is_active() {
            return true;
        }
        i = i + 1;
    }
    false
}

/// Whether the code activates the factor that was found for an enrollment:
/// nothing where the verification cannot go ahead, because no factor was
/// found, because the factor is no longer unverified, or because its secret
/// is no Base32.
pub open spec fn enrollment_accepts(
    found: Option<MfaFactor>,
    code: Seq<char>,
    config: TotpConfig,
    now: u64,
) -> Option<bool> {
    match found {
        None => None,
        Some(factor) => if factor.status != MfaFactorStatus::Unverified {
            None
        } else {
            match base32_bytes(factor.secret@) {
                None => None,
                Some(key) => Some(
                    totp_is_valid(
                        key,
                        code,
                        now,
                        config.skew,
                        config.period,
                        config.digits,
                        config.algorithm,
                    ),
                ),
            }
        },
    }
}

/// Whether one of the factors is active.
pub open spec fn has_active(factors: Seq<MfaFactor>) -> bool {
    exists|i: int| 0 <= i < factors.len() && (#[trigger] factors[i]).status
        == MfaFactorStatus::Verified
}

/// What the verification of an enrollment has to do.
#[derive(Debug, Clone, PartialEq, Eq)]
pub enum EnrollmentVerdict {
    /// The code is right: the factor is to be marked as verified.
    Activate,
    /// The code is wrong: nothing changes.
    Reject,
    /// Verification cannot go ahead.
    Fail(AuthError),
}

/// Decides the verification of an enrollment for the factor that was found:
/// an unknown factor and one that is no longer unverified fail, and for an
/// unverified factor the code decides.
pub fn enrollment_verdict(found: &Option<MfaFactor>, code: &str, config: &TotpConfig, now: u64) -> (r:
    EnrollmentVerdict)
    requires
        config.period > 0,
        config.digits <= 9,
    ensures
        match enrollment_accepts(*found, code@, *config, now) {
            None => r is Fail,
            Some(true) => r is Activate,
            Some(false) => r is Reject,
        },
        match *found {
            None => r is Fail && r->Fail_0 is MfaError && r->Fail_0->MfaError_0@
                == "Factor not found"@,
            Some(factor) => if factor.status != MfaFactorStatus::Unverified {
                r is Fail && r->Fail_0 is MfaError && r->Fail_0->MfaError_0@
                    == "Factor already verified"@
            } else {
                match base32_bytes(factor.secret@) {
                    None => r is Fail && r->Fail_0 is MfaError && r->Fail_0->MfaError_0@
                        == "Invalid secret"@,
                    Some(key) => if totp_is_valid(
                        key,
                        code@,
                        now,
                        config.skew,
                        config.period,
                        config.digits,
                        config.algorithm,
                    ) {
                        r is Activate
                    } else {
                        r is Reject
                    },
                }
            },
        },
{
    match found {
        None => EnrollmentVerdict::Fail(AuthError::MfaError(owned("Factor not found"))),
        Some(factor) => {
            let unverified = match factor.status {
                MfaFactorStatus::Unverified => true,
                _ => false,
            };
            if !unverified {
                return EnrollmentVerdict::Fail(
                    AuthError::MfaError(owned("Factor already verified")),
                );
            }
            match verify_totp(factor.secret.as_str(), code, config, now) {
                Err(e) => EnrollmentVerdict::Fail(e),
                Ok(true) => EnrollmentVerdict::Activate,
                Ok(false) => EnrollmentVerdict::Reject,
            }
        },
    }
}

/// MFA service for managing factors.
pub struct MfaService<R: MfaRepository> {
    repo: R,
    config: TotpConfig,
}

impl<R: MfaRepository> MfaService<R> {
    /// The configuration.
    pub closed spec fn spec_config(&self) -> TotpConfig {
        self.config
    }

    /// The repository.
    pub closed spec fn spec_repository(&self) -> R {
        self.repo
    }

    /// The factors that the repository keeps.
    pub open spec fn factors(&self) -> Seq<MfaFactor> {
        self.spec_repository().kept()
    }

    /// A service over the repository given.
    pub fn new(repo: R, config: TotpConfig) -> (r: Self)
        ensures
            r.spec_config() == config,
            r.spec_repository() == repo,
    {
        MfaService { repo, config }
    }

    /// The repository.
    pub fn repository(&self) -> (r: &R)
        ensures
            *r == self.spec_repository(),
    {
        &self.repo
    }

    /// Enroll a new TOTP factor: a factor with a fresh secret is handed to
    /// the repository, and what the repository hands back is returned with
    /// the URI for the authenticator app. After an enrollment that
    /// succeeds, the repository keeps the new factor, which is the user's,
    /// not yet verified, and holds the secret that the URI carries.
    pub fn enroll_totp(
        &mut self,
        user_id: u128,
        friendly_name: Option<String>,
        email: &str,
        now_ms: i64,
    ) -> (r: AuthResult<(MfaFactor, String)>)
        ensures
            final(self).spec_config() == old(self).spec_config(),
            r is Ok ==> {
                let factor = r->Ok_0.0;
                &&& final(self).factors() == old(self).factors().push(factor)
                &&& factor.user_id == user_id
                &&& factor.factor_type == MfaFactorType::TOTP
                &&& factor.friendly_name == friendly_name
                &&& factor.status == MfaFactorStatus::Unverified
                &&& factor.created_at_ms == now_ms
                &&& factor.updated_at_ms == now_ms
                &&& exists|bytes: Seq<u8>| bytes.len() == 20 && factor.secret@ == base32_text(bytes)
                &&& r->Ok_0.1@ == totp_uri_text(factor.secret@, email@, old(self).spec_config())
            },
    {
        let factor = MfaFactor::new_totp(user_id, friendly_name, now_ms);
        let uri = generate_totp_uri(factor.secret.as_str(), email, &self.config);
        match self.repo.create(factor) {
            Ok(created) => Ok((created, uri)),
            Err(e) => Err(e),
        }
    }

    /// Verify and activate a TOTP factor, at the time `now` in seconds since
    /// the epoch. A right code marks the factor as verified; a wrong code
    /// changes nothing. The verification fails for a factor that is not
    /// kept, for one that is no longer unverified, and where the repository
    /// fails.
    pub fn verify_enrollment(&mut self, factor_id: u128, code: &str, now: u64, now_ms: i64) -> (r:
        AuthResult<bool>)
        requires
            old(self).spec_config().period > 0,
            old(self).spec_config().digits <= 9,
        ensures
            final(self).spec_config() == old(self).spec_config(),
            ({
                let accepts = enrollment_accepts(
                    factor_with_id(old(self).factors(), factor_id),
                    code@,
                    old(self).spec_config(),
                    now,
                );
                &&& r is Ok ==> accepts == Some(r->Ok_0)
                &&& accepts is None ==> r is Err
                &&& accepts != Some(true) ==> final(self).spec_repository() == old(
                    self,
                ).spec_repository()
                &&& r is Ok && r->Ok_0 ==> final(self).factors() == with_status(
                    old(self).factors(),
                    factor_id,
                    MfaFactorStatus::Verified,
                    now_ms,
                )
            }),
    {
        let found = match self.repo.find_by_id(factor_id) {
            Ok(found) => found,
            Err(e) => {
                return Err(e);
            },
        };
        match enrollment_verdict(&found, code, &self.config, now) {
            EnrollmentVerdict::Fail(e) => Err(e),
            EnrollmentVerdict::Reject => Ok(false),
            EnrollmentVerdict::Activate => {
                match self.repo.update_status(factor_id, MfaFactorStatus::Verified, now_ms) {
                    Ok(_) => Ok(true),
                    Err(e) => Err(e),
                }
            },
        }
    }

    /// Verify a TOTP code for authentication, at the time `now` in seconds
    /// since the epoch: against the first active TOTP factor among those
    /// that the repository keeps for the user. Without such a factor the
    /// verification fails.
    pub fn verify_code(&self, user_id: u128, code: &str, now: u64) -> (r: AuthResult<bool>)
        requires
            self.spec_config().period > 0,
            self.spec_config().digits <= 9,
        ensures
            r is Ok ==> match first_active(factors_of(self.factors(), user_id)) {
                None => false,
                Some(factor) => is_totp_verdict(r, factor.secret@, code@, self.spec_config(), now),
            },
            first_active(factors_of(self.factors(), user_id)) is None ==> r is Err,
    {
        match self.repo.find_by_user_id(user_id) {
            Ok(factors) => verify_code_among(&factors, code, &self.config, now),
            Err(e) => Err(e),
        }
    }

    /// Disable a factor.
    pub fn disable_factor(&mut self, factor_id: u128, now_ms: i64) -> (r: AuthResult<()>)
        ensures
            final(self).spec_config() == old(self).spec_config(),
            r is Ok ==> final(self).factors() == with_status(
                old(self).factors(),
                factor_id,
                MfaFactorStatus::Disabled,
                now_ms,
            ),
    {
        self.repo.update_status(factor_id, MfaFactorStatus::Disabled, now_ms)
    }

    /// Remove a factor.
    pub fn remove_factor(&mut self, factor_id: u128) -> (r: AuthResult<()>)
        ensures
            final(self).spec_config() == old(self).spec_config(),
            r is Ok ==> final(self).factors() == factors_without(old(self).factors(), factor_id),
    {
        self.repo.delete(factor_id)
    }

    /// Check if user has MFA enabled: if one of the user's factors is
    /// active.
    pub fn is_mfa_enabled(&self, user_id: u128) -> (r: AuthResult<bool>)
        ensures
            r is Ok ==> r->Ok_0 == has_active(factors_of(self.factors(), user_id)),
    {
        match self.repo.find_by_user_id(user_id) {
            Ok(factors) => Ok(any_active(&factors)),
            Err(e) => Err(e),
        }
    }

    /// Get enrolled factors for a user, in the order in which they are
    /// kept.
    pub fn get_factors(&self, user_id: u128) -> (r: AuthResult<Vec<MfaFactor>>)
        ensures
            r is Ok ==> r->Ok_0@ == factors_of(self.factors(), user_id),
    {
        self.repo.find_by_user_id(user_id)
    }
}

} // verus!
