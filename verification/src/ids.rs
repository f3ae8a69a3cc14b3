//! Identifiers: 128-bit values of UUIDs and their text forms.
//!
//! Fresh identifiers come from the `uuid` crate. Their text forms are
//! rendered here: 32 hexadecimal digits in lower case, plain or in the
//! hyphenated groups 8-4-4-4-12.

use rand::RngCore;
use vstd::prelude::*;
use vstd::string::*;

verus! {

/// The character that stands for the hexadecimal digit `d`, in lower case.
pub open spec fn hex_digit_char(d: nat) -> char {
    if d == 0 {
        '0'
    } else if d == 1 {
        '1'
    } else if d == 2 {
        '2'
    } else if d == 3 {
        '3'
    } else if d == 4 {
        '4'
    } else if d == 5 {
        '5'
    } else if d == 6 {
        '6'
    } else if d == 7 {
        '7'
    } else if d == 8 {
        '8'
    } else if d == 9 {
        '9'
    } else if d == 10 {
        'a'
    } else if d == 11 {
        'b'
    } else if d == 12 {
        'c'
    } else if d == 13 {
        'd'
    } else if d == 14 {
        'e'
    } else {
        'f'
    }
}

/// The last `digits` hexadecimal digits of `value`, most significant first.
pub open spec fn hex_fixed(value: nat, digits: nat) -> Seq<char>
    decreases digits,
{
    if digits == 0 {
        Seq::<char>::empty()
    } else {
        hex_fixed(value / 16, (digits - 1) as nat).push(hex_digit_char(value % 16))
    }
}

/// A hexadecimal rendering has as many characters as digits were asked for.
pub proof fn lemma_hex_fixed_len(value: nat, digits: nat)
    ensures
        hex_fixed(value, digits).len() == digits,
    decreases digits,
{
    if digits > 0 {
        lemma_hex_fixed_len(value / 16, (digits - 1) as nat);
    }
}

/// The one-character string for a hexadecimal digit.
pub fn hex_digit_str(d: u8) -> (r: &'static str)
    requires
        d < 16,
    ensures
        r@ == seq![hex_digit_char(d as nat)],
{
    proof {
        reveal_strlit("0");
        reveal_strlit("1");
        reveal_strlit("2");
        reveal_strlit("3");
        reveal_strlit("4");
        reveal_strlit("5");
        reveal_strlit("6");
        reveal_strlit("7");
        reveal_strlit("8");
        reveal_strlit("9");
        reveal_strlit("a");
        reveal_strlit("b");
        reveal_strlit("c");
        reveal_strlit("d");
        reveal_strlit("e");
        reveal_strlit("f");
    }
    let r = if d == 0 {
        "0"
    } else if d == 1 {
        "1"
    } else if d == 2 {
        "2"
    } else if d == 3 {
        "3"
    } else if d == 4 {
        "4"
    } else if d == 5 {
        "5"
    } else if d == 6 {
        "6"
    } else if d == 7 {
        "7"
    } else if d == 8 {
        "8"
    } else if d == 9 {
        "9"
    } else if d == 10 {
        "a"
    } else if d == 11 {
        "b"
    } else if d == 12 {
        "c"
    } else if d == 13 {
        "d"
    } else if d == 14 {
        "e"
    } else {
        "f"
    };
    assert(r@ =~= seq![hex_digit_char(d as nat)]);
    r
}

/// Appends the last `digits` hexadecimal digits of `value` to `out`.
pub fn push_hex(out: &mut String, value: u128, digits: u8)
    ensures
        final(out)@ == old(out)@ + hex_fixed(value as nat, digits as nat),
    decreases digits,
{
    if digits == 0 {
        assert(out@ =~= old(out)@ + hex_fixed(value as nat, 0));
        return ;
    }
    push_hex(out, value / 16, digits - 1);
    out.append(hex_digit_str((value % 16) as u8));
    assert(out@ =~= old(out)@ + hex_fixed(value as nat, digits as nat));
}

/// The last `digits` hexadecimal digits of `value` in upper case, most
/// significant first.
pub open spec fn hex_fixed_upper(value: nat, digits: nat) -> Seq<char>
    decreases digits,
{
    if digits == 0 {
        Seq::<char>::empty()
    } else {
        hex_fixed_upper(value / 16, (digits - 1) as nat).push(
            crate::text::upper_hex_char(value % 16),
        )
    }
}

/// Appends the last `digits` hexadecimal digits of `value`, in upper case,
/// to `out`.
pub fn push_hex_upper(out: &mut String, value: u128, digits: u8)
    ensures
        final(out)@ == old(out)@ + hex_fixed_upper(value as nat, digits as nat),
    decreases digits,
{
    if digits == 0 {
        assert(out@ =~= old(out)@ + hex_fixed_upper(value as nat, 0));
        return ;
    }
    push_hex_upper(out, value / 16, digits - 1);
    let d = (value % 16) as u8;
    proof {
        reveal_strlit("A");
        reveal_strlit("B");
        reveal_strlit("C");
        reveal_strlit("D");
        reveal_strlit("E");
        reveal_strlit("F");
    }
    if d < 10 {
        out.append(crate::text::digit_str(d));
    } else if d == 10 {
        out.append("A");
    } else if d == 11 {
        out.append("B");
    } else if d == 12 {
        out.append("C");
    } else if d == 13 {
        out.append("D");
    } else if d == 14 {
        out.append("E");
    } else {
        out.append("F");
    }
    assert(out@ =~= old(out)@ + hex_fixed_upper(value as nat, digits as nat));
}

/// 2 to the power 48.
pub const TWO_48: u128 = 0x1_0000_0000_0000;

/// 2 to the power 64.
pub const TWO_64: u128 = 0x1_0000_0000_0000_0000;

/// 2 to the power 80.
pub const TWO_80: u128 = 0x1_0000_0000_0000_0000_0000;

/// 2 to the power 96.
pub const TWO_96: u128 = 0x1_0000_0000_0000_0000_0000_0000;

/// The five groups of a UUID's hexadecimal digits, joined by `sep`.
pub open spec fn uuid_groups(id: u128, sep: Seq<char>) -> Seq<char> {
    hex_fixed(id as nat / TWO_96 as nat, 8) + sep + hex_fixed(id as nat / TWO_80 as nat, 4) + sep
        + hex_fixed(id as nat / TWO_64 as nat, 4) + sep + hex_fixed(id as nat / TWO_48 as nat, 4)
        + sep + hex_fixed(id as nat, 12)
}

/// The hyphenated text form of a UUID: groups of 8, 4, 4, 4 and 12
/// hexadecimal digits in lower case.
pub open spec fn uuid_text(id: u128) -> Seq<char> {
    uuid_groups(id, "-"@)
}

/// The text form of a UUID without hyphens: 32 hexadecimal digits in lower
/// case.
pub open spec fn uuid_simple_text(id: u128) -> Seq<char> {
    hex_fixed(id as nat, 32)
}

/// Appends the five groups of a UUID's digits, joined by `sep`.
pub fn push_uuid_groups(out: &mut String, id: u128, sep: &str)
    ensures
        final(out)@ == old(out)@ + uuid_groups(id, sep@),
{
    push_hex(out, id / TWO_96, 8);
    out.append(sep);
    push_hex(out, id / TWO_80, 4);
    out.append(sep);
    push_hex(out, id / TWO_64, 4);
    out.append(sep);
    push_hex(out, id / TWO_48, 4);
    out.append(sep);
    push_hex(out, id, 12);
    assert(out@ =~= old(out)@ + uuid_groups(id, sep@));
}

/// The hyphenated text form of a UUID.
pub fn uuid_to_string(id: u128) -> (r: String)
    ensures
        r@ == uuid_text(id),
{
    let mut out = String::new();
    push_uuid_groups(&mut out, id, "-");
    assert(out@ =~= uuid_text(id));
    out
}

/// The text form of a UUID without hyphens.
pub fn uuid_to_simple_string(id: u128) -> (r: String)
    ensures
        r@ == uuid_simple_text(id),
{
    let mut out = String::new();
    push_hex(&mut out, id, 32);
    assert(out@ =~= uuid_simple_text(id));
    out
}

/// A fresh random identifier: the 128-bit value of `uuid::Uuid::new_v4`.
/// Nothing is claimed of the value.
#[verifier::external_body]
pub(crate) fn random_uuid() -> (r: u128) {
    uuid::Uuid::new_v4().as_u128()
}

/// Fills a vector of `count` bytes with `RngCore::fill_bytes` of
/// `rand::thread_rng()`. Of the bytes only their number is known.
#[verifier::external_body]
pub(crate) fn random_bytes(count: usize) -> (r: Vec<u8>)
    ensures
        r@.len() == count,
{
    let mut bytes = vec![0u8; count];
    rand::thread_rng().fill_bytes(&mut bytes);
    bytes
}


/// What `uuid::Uuid::parse_str` makes of a text: the 128-bit value of the
/// UUID that the text stands for, or the text of the error.
pub uninterp spec fn parsed_uuid(text: Seq<char>) -> Result<u128, Seq<char>>;

/// Reads a UUID with `uuid::Uuid::parse_str`. The contract names the
/// result.
#[verifier::external_body]
pub(crate) fn parse_uuid(text: &str) -> (r: Result<u128, String>)
    ensures
        match r {
            Ok(id) => parsed_uuid(text@) == Ok::<u128, Seq<char>>(id),
            Err(e) => parsed_uuid(text@) == Err::<u128, Seq<char>>(e@),
        },
{
    match uuid::Uuid::parse_str(text) {
        Ok(id) => Ok(id.as_u128()),
        Err(e) => Err(e.to_string()),
    }
}

} // verus!
