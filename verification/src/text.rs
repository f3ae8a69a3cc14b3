//! Text building blocks shared by the message-producing functions.
//!
//! Messages are specified as sequences of characters. The functions here
//! render integers in decimal and append pieces to a growing `String`, each
//! with a contract over the string's view.

use vstd::prelude::*;
use vstd::string::*;

verus! {

/// The character that stands for the decimal digit `d`.
pub open spec fn digit_char(d: nat) -> char {
    if d == 0 {
        '0'
    } else if d == 1 {
        '1'
    } else if d == 2 {
        '2'
    } else if d == 3 {
        '3'
    } else if d == 4 {
        '4'
    } else if d == 5 {
        '5'
    } else if d == 6 {
        '6'
    } else if d == 7 {
        '7'
    } else if d == 8 {
        '8'
    } else {
        '9'
    }
}

/// The decimal digits of `n`, most significant first, without leading zeros.
pub open spec fn decimal(n: nat) -> Seq<char>
    decreases n,
{
    if n < 10 {
        seq![digit_char(n)]
    } else {
        decimal(n / 10).push(digit_char(n % 10))
    }
}

/// The decimal form of a signed integer: a minus sign for negative values,
/// then the digits of the magnitude.
pub open spec fn signed_decimal(n: int) -> Seq<char> {
    if n < 0 {
        seq!['-'] + decimal((-n) as nat)
    } else {
        decimal(n as nat)
    }
}

/// A decimal rendering has at least one character.
pub proof fn lemma_decimal_nonempty(n: nat)
    ensures
        decimal(n).len() >= 1,
    decreases n,
{
    if n >= 10 {
        lemma_decimal_nonempty(n / 10);
    }
}

/// The one-character string for a decimal digit.
pub fn digit_str(d: u8) -> (r: &'static str)
    requires
        d < 10,
    ensures
        r@ == seq![digit_char(d as nat)],
{
    proof {
        reveal_strlit("0");
        reveal_strlit("1");
        reveal_strlit("2");
        reveal_strlit("3");
        reveal_strlit("4");
        reveal_strlit("5");
        reveal_strlit("6");
        reveal_strlit("7");
        reveal_strlit("8");
        reveal_strlit("9");
    }
    let r = if d == 0 {
        "0"
    } else if d == 1 {
        "1"
    } else if d == 2 {
        "2"
    } else if d == 3 {
        "3"
    } else if d == 4 {
        "4"
    } else if d == 5 {
        "5"
    } else if d == 6 {
        "6"
    } else if d == 7 {
        "7"
    } else if d == 8 {
        "8"
    } else {
        "9"
    };
    assert(r@ =~= seq![digit_char(d as nat)]);
    r
}

/// Appends the decimal digits of `n` to `out`.
pub fn push_decimal(out: &mut String, n: u64)
    ensures
        final(out)@ == old(out)@ + decimal(n as nat),
    decreases n,
{
    if n >= 10 {
        push_decimal(out, n / 10);
    }
    let d: u8 = (n % 10) as u8;
    out.append(digit_str(d));
    proof {
        if n >= 10 {
            assert(out@ =~= old(out)@ + decimal(n as nat));
        } else {
            assert(out@ =~= old(out)@ + decimal(n as nat));
        }
    }
}

/// Appends the decimal form of a signed integer to `out`.
pub fn push_signed_decimal(out: &mut String, n: i64)
    ensures
        final(out)@ == old(out)@ + signed_decimal(n as int),
{
    if n < 0 {
        proof {
            reveal_strlit("-");
        }
        out.append("-");
        let magnitude: u64 = ((-(n + 1)) as u64) + 1;
        push_decimal(out, magnitude);
        assert(out@ =~= old(out)@ + signed_decimal(n as int));
    } else {
        push_decimal(out, n as u64);
    }
}

/// The decimal digits of `n` as a fresh string.
pub fn decimal_string(n: u64) -> (r: String)
    ensures
        r@ == decimal(n as nat),
{
    let mut out = String::new();
    push_decimal(&mut out, n);
    assert(out@ =~= decimal(n as nat));
    out
}

/// A fresh string with the same characters as `s`.
pub fn owned(s: &str) -> (r: String)
    ensures
        r@ == s@,
{
    let mut out = String::new();
    out.append(s);
    assert(out@ =~= s@);
    out
}

/// Whether two string slices hold the same characters.
pub fn same_text(a: &str, b: &str) -> (r: bool)
    ensures
        r == (a@ == b@),
{
    let x = owned(a);
    let y = owned(b);
    x == y
}


/// The characters of `s` as a vector.
pub fn chars_of(s: &str) -> (r: Vec<char>)
    ensures
        r@ == s@,
{
    let mut out: Vec<char> = Vec::new();
    for c in it: s.chars()
        invariant
            out@ == it.history(),
    {
        out.push(c);
    }
    out
}


/// The result of `str::trim` on a string with the characters `s`: the string
/// without its leading and trailing white space, as Unicode defines it.
pub uninterp spec fn trimmed(s: Seq<char>) -> Seq<char>;

/// Calls `str::trim`. The contract names the result; nothing else is claimed
/// of it.
#[verifier::external_body]
pub(crate) fn trim(s: &str) -> (r: &str)
    ensures
        r@ == trimmed(s@),
{
    s.trim()
}

/// The result of `str::to_lowercase` on a string with the characters `s`: its
/// lower-case form, as Unicode defines it.
pub uninterp spec fn lowercased(s: Seq<char>) -> Seq<char>;

/// Calls `str::to_lowercase`. The contract names the result; nothing else is
/// claimed of it.
#[verifier::external_body]
pub(crate) fn to_lowercase(s: &str) -> (r: String)
    ensures
        r@ == lowercased(s@),
{
    s.to_lowercase()
}


/// Lexicographic order on texts by the characters' code points: `a` comes
/// before `b` or equals it.
pub open spec fn text_le(a: Seq<char>, b: Seq<char>) -> bool
    decreases a.len(),
{
    if a.len() == 0 {
        true
    } else if b.len() == 0 {
        false
    } else if a[0] != b[0] {
        (a[0] as int) < (b[0] as int)
    } else {
        text_le(a.drop_first(), b.drop_first())
    }
}

/// `text_le` looks only at what follows a common prefix.
pub proof fn lemma_text_le_skips_common_prefix(a: Seq<char>, b: Seq<char>, n: int)
    requires
        0 <= n <= a.len(),
        n <= b.len(),
        forall|i: int| 0 <= i < n ==> a[i] == b[i],
    ensures
        text_le(a, b) == text_le(a.skip(n), b.skip(n)),
    decreases n,
{
    if n == 0 {
        assert(a.skip(0) =~= a);
        assert(b.skip(0) =~= b);
    } else {
        let a1 = a.drop_first();
        let b1 = b.drop_first();
        assert forall|i: int| 0 <= i < n - 1 implies a1[i] == b1[i] by {
            assert(a1[i] == a[i + 1]);
            assert(b1[i] == b[i + 1]);
        }
        lemma_text_le_skips_common_prefix(a1, b1, n - 1);
        assert(a1.skip(n - 1) =~= a.skip(n));
        assert(b1.skip(n - 1) =~= b.skip(n));
        assert(a[0] == b[0]);
    }
}

/// Whether `a` comes before `b` or equals it, in lexicographic order by code
/// points.
pub fn text_less_or_equal(a: &str, b: &str) -> (r: bool)
    ensures
        r == text_le(a@, b@),
{
    let x = chars_of(a);
    let y = chars_of(b);
    let mut i: usize = 0;
    while i < x.len() && i < y.len() && x[i] == y[i]
        invariant
            i <= x.len(),
            i <= y.len(),
            forall|k: int| 0 <= k < i ==> x@[k] == y@[k],
        decreases x.len() - i,
    {
        i = i + 1;
    }
    proof {
        lemma_text_le_skips_common_prefix(x@, y@, i as int);
    }
    if i >= x.len() {
        true
    } else if i >= y.len() {
        false
    } else {
        let cx: char = x[i];
        let cy: char = y[i];
        proof {
            assert(x@.skip(i as int)[0] == cx);
            assert(y@.skip(i as int)[0] == cy);
        }
        code_point(cx) < code_point(cy)
    }
}


/// Of two texts, one comes before the other or they are equal.
pub proof fn lemma_text_le_total(a: Seq<char>, b: Seq<char>)
    ensures
        text_le(a, b) || text_le(b, a),
    decreases a.len(),
{
    if a.len() > 0 && b.len() > 0 && a[0] == b[0] {
        lemma_text_le_total(a.drop_first(), b.drop_first());
    }
}

/// `text_le` is transitive.
pub proof fn lemma_text_le_transitive(a: Seq<char>, b: Seq<char>, c: Seq<char>)
    requires
        text_le(a, b),
        text_le(b, c),
    ensures
        text_le(a, c),
    decreases a.len(),
{
    if a.len() > 0 && b.len() > 0 && c.len() > 0 {
        if a[0] == b[0] && b[0] == c[0] {
            lemma_text_le_transitive(a.drop_first(), b.drop_first(), c.drop_first());
        }
    }
}


/// The code point of a character.
pub fn code_point(c: char) -> (r: u32)
    ensures
        r as int == c as int,
{
    c as u32
}


/// Whether `needle` occurs in `s` at position `at`.
pub open spec fn occurs_at(s: Seq<char>, needle: Seq<char>, at: int) -> bool {
    0 <= at && at + needle.len() <= s.len() && s.subrange(at, at + needle.len()) == needle
}

/// Whether `needle` occurs somewhere in `s`.
pub open spec fn contains_seq(s: Seq<char>, needle: Seq<char>) -> bool {
    exists|at: int| occurs_at(s, needle, at)
}

/// Whether the characters of `needle` stand in `s` from position `at` on.
fn matches_at(s: &Vec<char>, needle: &Vec<char>, at: usize) -> (r: bool)
    requires
        at + needle@.len() <= s@.len(),
    ensures
        r == occurs_at(s@, needle@, at as int),
{
    let mut k: usize = 0;
    while k < needle.len()
        invariant
            k <= needle.len(),
            at + needle.len() <= s.len(),
            forall|j: int| 0 <= j < k ==> s@[at + j] == needle@[j],
        decreases needle.len() - k,
    {
        if s[at + k] != needle[k] {
            proof {
                let sub = s@.subrange(at as int, at + needle@.len());
                assert(sub[k as int] == s@[at + k]);
            }
            return false;
        }
        k = k + 1;
    }
    assert(s@.subrange(at as int, at + needle@.len()) =~= needle@);
    true
}

/// Whether `s` starts with `prefix`.
pub fn starts_with(s: &str, prefix: &str) -> (r: bool)
    ensures
        r == prefix@.is_prefix_of(s@),
{
    let x = chars_of(s);
    let p = chars_of(prefix);
    if p.len() > x.len() {
        return false;
    }
    let r = matches_at(&x, &p, 0);
    proof {
        assert(x@.subrange(0, p@.len() as int) =~= x@.take(p@.len() as int));
        if r {
            assert(p@ =~= x@.subrange(0, p@.len() as int));
        }
        if p@.is_prefix_of(x@) {
            assert(x@.subrange(0, p@.len() as int) =~= p@);
        }
    }
    r
}

/// Whether `s` ends with `suffix`.
pub fn ends_with(s: &str, suffix: &str) -> (r: bool)
    ensures
        r == suffix@.is_suffix_of(s@),
{
    let x = chars_of(s);
    let p = chars_of(suffix);
    if p.len() > x.len() {
        return false;
    }
    let at = x.len() - p.len();
    let r = matches_at(&x, &p, at);
    proof {
        assert(x@.subrange(at as int, x@.len() as int) =~= x@.skip(at as int));
        if r {
            assert(p@ =~= x@.skip(at as int));
        }
        if p@.is_suffix_of(x@) {
            assert(x@.skip(at as int) =~= p@);
        }
    }
    r
}

/// Whether `needle` occurs somewhere in `s`.
pub fn contains_text(s: &str, needle: &str) -> (r: bool)
    ensures
        r == contains_seq(s@, needle@),
{
    let x = chars_of(s);
    let p = chars_of(needle);
    if p.len() > x.len() {
        assert(!contains_seq(x@, p@)) by {
            assert forall|at: int| !occurs_at(x@, p@, at) by {}
        }
        return false;
    }
    let last = x.len() - p.len();
    let mut at: usize = 0;
    while at < last
        invariant
            last == x.len() - p.len(),
            p.len() <= x.len(),
            at <= last,
            x@ == s@,
            p@ == needle@,
            forall|j: int| 0 <= j < at ==> !occurs_at(x@, p@, j),
        decreases last - at,
    {
        if matches_at(&x, &p, at) {
            assert(occurs_at(s@, needle@, at as int));
            return true;
        }
        at = at + 1;
    }
    let r = matches_at(&x, &p, last);
    proof {
        if r {
            assert(occurs_at(s@, needle@, last as int));
        } else {
            assert forall|j: int| !occurs_at(x@, p@, j) by {}
        }
    }
    r
}

/// The position of the first occurrence of `c` in `s`, if there is one.
pub fn find_char(s: &str, c: char) -> (r: Option<usize>)
    ensures
        match r {
            Some(i) => i < s@.len() && s@[i as int] == c && forall|j: int|
                0 <= j < i ==> s@[j] != c,
            None => forall|j: int| 0 <= j < s@.len() ==> s@[j] != c,
        },
{
    let x = chars_of(s);
    let mut i: usize = 0;
    while i < x.len()
        invariant
            i <= x.len(),
            x@ == s@,
            forall|j: int| 0 <= j < i ==> x@[j] != c,
        decreases x.len() - i,
    {
        if x[i] == c {
            return Some(i);
        }
        i = i + 1;
    }
    None
}

/// The number of characters in `s`.
pub fn char_count(s: &str) -> (r: usize)
    ensures
        r == s@.len(),
{
    s.unicode_len()
}

/// The part of `s` from character `from` up to character `to`.
pub fn slice_chars(s: &str, from: usize, to: usize) -> (r: &str)
    requires
        from <= to <= s@.len(),
    ensures
        r@ == s@.subrange(from as int, to as int),
{
    s.substring_char(from, to)
}


/// Whether a byte stands for itself in a percent-encoded text: letters,
/// digits, `-`, `.`, `_` and `~`.
pub open spec fn is_unreserved(b: u8) -> bool {
    (0x30 <= b <= 0x39) || (0x41 <= b <= 0x5A) || (0x61 <= b <= 0x7A) || b == 0x2D || b == 0x2E
        || b == 0x5F || b == 0x7E
}

/// The character that stands for the hexadecimal digit `d`, in upper case.
pub open spec fn upper_hex_char(d: nat) -> char {
    if d < 10 {
        digit_char(d)
    } else if d == 10 {
        'A'
    } else if d == 11 {
        'B'
    } else if d == 12 {
        'C'
    } else if d == 13 {
        'D'
    } else if d == 14 {
        'E'
    } else {
        'F'
    }
}

/// The percent-encoded form of one byte.
pub open spec fn encoded_byte(b: u8) -> Seq<char> {
    if is_unreserved(b) {
        seq![b as char]
    } else {
        seq!['%', upper_hex_char(b as nat / 16), upper_hex_char(b as nat % 16)]
    }
}

/// The percent-encoded form of some bytes: every byte but the unreserved
/// ones is written as `%` and two hexadecimal digits in upper case.
pub open spec fn percent_encoded(bytes: Seq<u8>) -> Seq<char>
    decreases bytes.len(),
{
    if bytes.len() == 0 {
        Seq::<char>::empty()
    } else {
        percent_encoded(bytes.drop_last()) + encoded_byte(bytes.last())
    }
}

/// The percent-encoded form of a text's UTF-8 bytes.
pub open spec fn url_encoded(s: Seq<char>) -> Seq<char> {
    percent_encoded(vstd::utf8::encode_utf8(s))
}

/// Calls `urlencoding::encode`, which percent-encodes every byte of the
/// text's UTF-8 form except letters, digits, `-`, `_`, `.` and `~`.
#[verifier::external_body]
pub(crate) fn url_encode(data: &str) -> (r: String)
    ensures
        r@ == url_encoded(data@),
{
    urlencoding::encode(data).into_owned()
}


/// `count` zeros.
pub open spec fn zeros(count: nat) -> Seq<char> {
    Seq::new(count, |i: int| '0')
}

/// The decimal digits of `n` with zeros in front up to `width` characters.
pub open spec fn zero_padded(n: nat, width: nat) -> Seq<char> {
    if decimal(n).len() >= width {
        decimal(n)
    } else {
        zeros((width - decimal(n).len()) as nat) + decimal(n)
    }
}

/// The decimal digits of `n` with zeros in front up to `width` characters.
pub fn pad_with_zeros(n: u64, width: u32) -> (r: String)
    ensures
        r@ == zero_padded(n as nat, width as nat),
{
    let mut digits = String::new();
    push_decimal(&mut digits, n);
    assert(digits@ =~= decimal(n as nat));
    let len = char_count(digits.as_str());
    let mut out = String::new();
    let mut k: usize = len;
    assert(out@ =~= zeros(0));
    while k < width as usize
        invariant
            len <= k,
            k <= width || k == len,
            out@ == zeros((k - len) as nat),
        decreases width as usize - k,
    {
        proof {
            reveal_strlit("0");
        }
        out.append("0");
        assert(out@ =~= zeros((k + 1 - len) as nat));
        k = k + 1;
    }
    let ghost pad = out@;
    out.append(digits.as_str());
    proof {
        assert(digits@ == decimal(n as nat));
        assert(len == decimal(n as nat).len());
        if len >= width {
            assert(pad =~= Seq::<char>::empty());
            assert(out@ =~= decimal(n as nat));
        }
    }
    out
}

/// Calls `String::push`, which appends a character to a string.
#[verifier::external_body]
pub(crate) fn push_char(out: &mut String, c: char)
    ensures
        final(out)@ == old(out)@.push(c),
{
    out.push(c);
}

/// What the `Debug` form of a text is: the text in double quotes, with the
/// characters escaped that `str`'s `Debug` escapes.
pub uninterp spec fn debug_quoted(s: Seq<char>) -> Seq<char>;

/// Formats a text with `Debug` of `str`. The contract names the result.
#[verifier::external_body]
pub(crate) fn debug_text(s: &str) -> (r: String)
    ensures
        r@ == debug_quoted(s@),
{
    format!("{:?}", s)
}

/// The lines of a text as `str::lines` gives them: the text split at line
/// feeds, each line without a carriage return at its end, and no last line
/// for a text that ends with a line feed.
pub uninterp spec fn lines_of_text(s: Seq<char>) -> Seq<Seq<char>>;

/// Collects the lines that `str::lines` gives. The contract names the
/// result.
#[verifier::external_body]
pub(crate) fn lines_of(s: &str) -> (r: Vec<String>)
    ensures
        r@.len() == lines_of_text(s@).len(),
        forall|i: int| 0 <= i < r@.len() ==> (#[trigger] r@[i])@ == lines_of_text(s@)[i],
{
    s.lines().map(|line| line.to_string()).collect()
}

/// Whether a character is a letter or a digit, as `char::is_alphanumeric`
/// tells by the Unicode tables.
pub uninterp spec fn alphanumeric(c: char) -> bool;

/// Calls `char::is_alphanumeric`. The contract names the result.
#[verifier::external_body]
pub(crate) fn is_alphanumeric(c: char) -> (r: bool)
    ensures
        r == alphanumeric(c),
{
    c.is_alphanumeric()
}

/// The texts joined with `sep` between them.
pub open spec fn joined(parts: Seq<Seq<char>>, sep: Seq<char>) -> Seq<char>
    decreases parts.len(),
{
    if parts.len() == 0 {
        Seq::<char>::empty()
    } else if parts.len() == 1 {
        parts[0]
    } else {
        joined(parts.drop_last(), sep) + sep + parts.last()
    }
}

/// The value of a digit in the radix given, 10 or 16, if the character is
/// one: `0` to `9`, and in radix 16 the letters `a` to `f` in either case.
pub open spec fn digit_value(c: char, radix: nat) -> Option<nat> {
    if 48 <= c as int <= 57 {
        Some((c as int - 48) as nat)
    } else if radix == 16 && 97 <= c as int <= 102 {
        Some((c as int - 87) as nat)
    } else if radix == 16 && 65 <= c as int <= 70 {
        Some((c as int - 55) as nat)
    } else {
        None
    }
}

/// The value of the digits in base `base`, most significant first.
pub open spec fn digits_value(digits: Seq<nat>, base: nat) -> nat
    decreases digits.len(),
{
    if digits.len() == 0 {
        0
    } else {
        digits_value(digits.drop_last(), base) * base + digits.last()
    }
}

/// Whether every character is a digit in the radix given.
pub open spec fn all_digits(s: Seq<char>, radix: nat) -> bool {
    forall|i: int| 0 <= i < s.len() ==> digit_value(#[trigger] s[i], radix) is Some
}

/// The values of digits in the radix given.
pub open spec fn digit_values(s: Seq<char>, radix: nat) -> Seq<nat> {
    s.map_values(|c: char| digit_value(c, radix)->0)
}

/// The number that a text stands for as the integer types' `parse` and
/// `from_str_radix` read it: digits in the radix given, at least one, after
/// an optional `+`, with a value of no more than `max`. Nothing for any
/// other text.
pub open spec fn parsed_number(s: Seq<char>, radix: nat, max: u64) -> Option<u64> {
    let digits = if s.len() > 0 && s[0] == '+' {
        s.drop_first()
    } else {
        s
    };
    if digits.len() == 0 || !all_digits(digits, radix) {
        None
    } else if digits_value(digit_values(digits, radix), radix) > max {
        None
    } else {
        Some(digits_value(digit_values(digits, radix), radix) as u64)
    }
}

/// Digit values grow with more digits: the value of a prefix is no more
/// than the value of the whole.
proof fn lemma_digits_value_grows(digits: Seq<nat>, base: nat, n: int)
    requires
        base >= 1,
        0 <= n <= digits.len(),
    ensures
        digits_value(digits.take(n), base) <= digits_value(digits, base),
    decreases digits.len() - n,
{
    if n == digits.len() {
        assert(digits.take(n) =~= digits);
    } else {
        lemma_digits_value_grows(digits, base, n + 1);
        let next = digits.take(n + 1);
        assert(next.drop_last() =~= digits.take(n));
        assert(digits_value(next.drop_last(), base) * base >= digits_value(next.drop_last(), base))
            by (nonlinear_arith)
            requires
                base >= 1,
        ;
    }
}

fn digit_of(c: char, radix: u64) -> (r: Option<u64>)
    requires
        radix == 10 || radix == 16,
    ensures
        match r {
            Some(d) => digit_value(c, radix as nat) == Some(d as nat) && d < radix,
            None => digit_value(c, radix as nat) is None,
        },
{
    let code = code_point(c);
    if 48 <= code && code <= 57 {
        Some((code - 48) as u64)
    } else if radix == 16 && 97 <= code && code <= 102 {
        Some((code - 87) as u64)
    } else if radix == 16 && 65 <= code && code <= 70 {
        Some((code - 55) as u64)
    } else {
        None
    }
}

/// Reads a number in the radix given, 10 or 16, of no more than `max`.
pub fn parse_number(s: &str, radix: u64, max: u64) -> (r: Option<u64>)
    requires
        radix == 10 || radix == 16,
    ensures
        r == parsed_number(s@, radix as nat, max),
{
    let text = chars_of(s);
    let start: usize = if text.len() > 0 && text[0] == '+' {
        1
    } else {
        0
    };
    let ghost digits = if start == 1 {
        text@.drop_first()
    } else {
        text@
    };
    assert(digits =~= text@.skip(start as int));
    if text.len() == start {
        return None;
    }
    let ghost values = digit_values(digits, radix as nat);
    let mut value: u64 = 0;
    let mut i: usize = start;
    assert(values.take(0) =~= Seq::<nat>::empty());
    while i < text.len()
        invariant
            start <= i <= text@.len(),
            start <= 1,
            radix == 10 || radix == 16,
            text@ == s@,
            digits == text@.skip(start as int),
            digits == (if s@.len() > 0 && s@[0] == '+' {
                s@.drop_first()
            } else {
                s@
            }),
            digits.len() > 0,
            values == digit_values(digits, radix as nat),
            forall|k: int|
                0 <= k < i - start ==> digit_value(#[trigger] digits[k], radix as nat) is Some,
            value == digits_value(values.take(i - start), radix as nat),
            value <= max,
        decreases text@.len() - i,
    {
        let c = text[i];
        assert(digits[i - start] == c);
        let d = match digit_of(c, radix) {
            Some(d) => d,
            None => {
                assert(digit_value(digits[i - start], radix as nat) is None);
                assert(!all_digits(digits, radix as nat));
                return None;
            },
        };
        proof {
            let next = values.take(i - start + 1);
            assert(next.drop_last() =~= values.take(i - start));
            assert(next.last() == values[i - start]);
            assert(values[i - start] == digit_value(c, radix as nat)->0);
            assert(digits_value(next, radix as nat) == value * radix + d);
            lemma_digits_value_grows(values, radix as nat, i - start + 1);
        }
        if d > max || value > (max - d) / radix {
            proof {
                if radix == 10 {
                    assert(value * 10 + d > max);
                } else {
                    assert(value * 16 + d > max);
                }
            }
            return None;
        }
        proof {
            if radix == 10 {
                assert(value * 10 + d <= max);
            } else {
                assert(value * 16 + d <= max);
            }
        }
        value = value * radix + d;
        i = i + 1;
    }
    proof {
        assert(values.take(values.len() as int) =~= values);
        assert(all_digits(digits, radix as nat));
    }
    Some(value)
}

/// Reads a number as `u64`'s `parse` does.
pub fn parse_u64(s: &str) -> (r: Option<u64>)
    ensures
        r == parsed_number(s@, 10, u64::MAX),
{
    parse_number(s, 10, u64::MAX)
}


/// The set of the texts that a list holds.
pub open spec fn text_set(v: Seq<String>) -> Set<Seq<char>> {
    Set::new(|n: Seq<char>| exists|i: int| 0 <= i < v.len() && (#[trigger] v[i])@ == n)
}

/// The position of the first text equal to `name`, if there is one.
pub fn position_of_text(v: &Vec<String>, name: &str) -> (r: Option<usize>)
    ensures
        match r {
            Some(i) => i < v@.len() && v@[i as int]@ == name@ && text_set(v@).contains(name@),
            None => !text_set(v@).contains(name@),
        },
{
    let mut i: usize = 0;
    while i < v.len()
        invariant
            i <= v@.len(),
            forall|k: int| 0 <= k < i ==> (#[trigger] v@[k])@ != name@,
        decreases v@.len() - i,
    {
        if same_text(v[i].as_str(), name) {
            return Some(i);
        }
        i = i + 1;
    }
    None
}

/// The set of a list with one more text is the list's set with that text.
pub proof fn lemma_text_set_push(v: Seq<String>, s: String)
    ensures
        text_set(v.push(s)) == text_set(v).insert(s@),
{
    let w = v.push(s);
    assert forall|n: Seq<char>| text_set(w).contains(n) <==> text_set(v).insert(s@).contains(
        n,
    ) by {
        if text_set(w).contains(n) {
            let i = choose|i: int| 0 <= i < w.len() && (#[trigger] w[i])@ == n;
            if i < v.len() {
                assert(v[i]@ == n);
            }
        }
        if text_set(v).contains(n) {
            let i = choose|i: int| 0 <= i < v.len() && (#[trigger] v[i])@ == n;
            assert(w[i]@ == n);
        }
        if n == s@ {
            assert(w[v.len() as int]@ == n);
        }
    }
    assert(text_set(w) =~= text_set(v).insert(s@));
}

/// Adds a text to a list that stands for a set.
pub fn insert_text(v: &mut Vec<String>, name: String)
    ensures
        text_set(final(v)@) == text_set(old(v)@).insert(name@),
{
    proof {
        lemma_text_set_push(v@, name);
    }
    v.push(name);
}

/// Takes a text out of a list that stands for a set.
pub fn remove_text(v: &mut Vec<String>, name: &str)
    ensures
        text_set(final(v)@) == text_set(old(v)@).remove(name@),
{
    let ghost before = v@;
    let mut kept: Vec<String> = Vec::new();
    let mut i: usize = 0;
    proof {
        assert(text_set(kept@) =~= Set::<Seq<char>>::empty());
        assert(text_set(before.take(0)) =~= Set::<Seq<char>>::empty());
        assert(text_set(kept@) =~= text_set(before.take(0)).remove(name@));
    }
    while i < v.len()
        invariant
            i <= v@.len(),
            v@ == before,
            text_set(kept@) == text_set(before.take(i as int)).remove(name@),
        decreases v@.len() - i,
    {
        proof {
            assert(before.take(i + 1) =~= before.take(i as int).push(before[i as int]));
            lemma_text_set_push(before.take(i as int), before[i as int]);
        }
        if !same_text(v[i].as_str(), name) {
            let copy = v[i].clone();
            proof {
                lemma_text_set_push(kept@, copy);
            }
            kept.push(copy);
            assert(text_set(kept@) =~= text_set(before.take(i + 1)).remove(name@));
        } else {
            assert(text_set(kept@) =~= text_set(before.take(i + 1)).remove(name@));
        }
        i = i + 1;
    }
    assert(before.take(before.len() as int) =~= before);
    *v = kept;
}


/// A directory's path with a name in it: the two with a slash between them,
/// unless the directory is empty or ends with a slash.
pub open spec fn joined_path(dir: Seq<char>, name: Seq<char>) -> Seq<char> {
    if dir.len() == 0 || dir.last() == '/' {
        dir + name
    } else {
        dir + "/"@ + name
    }
}

/// A directory's path with a name in it.
pub fn join_path(dir: &str, name: &str) -> (r: String)
    ensures
        r@ == joined_path(dir@, name@),
{
    let mut out = owned(dir);
    if !dir.is_empty() && !ends_with(dir, "/") {
        out.append("/");
    }
    proof {
        reveal_strlit("/");
        if dir@.len() > 0 {
            assert("/"@.is_suffix_of(dir@) <==> dir@.last() == '/') by {
                if "/"@.is_suffix_of(dir@) {
                    assert(dir@.skip(dir@.len() - 1)[0] == '/');
                }
                if dir@.last() == '/' {
                    assert(dir@.skip(dir@.len() - 1) =~= "/"@);
                }
            }
        }
    }
    out.append(name);
    out
}


/// A number of 1000 or more has at least four decimal digits.
pub proof fn lemma_decimal_grows(n: nat)
    requires
        n >= 1000,
    ensures
        decimal(n).len() >= 4,
{
    reveal_with_fuel(decimal, 4);
    lemma_decimal_nonempty(n / 1000);
}


/// The result of `str::to_uppercase` on a string with the characters `s`:
/// its upper-case form, as Unicode defines it.
pub uninterp spec fn uppercased(s: Seq<char>) -> Seq<char>;

/// Calls `str::to_uppercase`. The contract names the result; nothing else
/// is claimed of it.
#[verifier::external_body]
pub(crate) fn to_uppercase(s: &str) -> (r: String)
    ensures
        r@ == uppercased(s@),
{
    s.to_uppercase()
}

/// The upper-case form of a character as `char::to_uppercase` gives it: one
/// character or more.
pub uninterp spec fn uppercased_char(c: char) -> Seq<char>;

/// Collects what `char::to_uppercase` gives. The contract names the result.
#[verifier::external_body]
pub(crate) fn char_to_uppercase(c: char) -> (r: String)
    ensures
        r@ == uppercased_char(c),
{
    c.to_uppercase().collect()
}

/// The parts of a text between the occurrences of a separator: one part
/// more than there are separators.
pub open spec fn split_at_char(s: Seq<char>, sep: char) -> Seq<Seq<char>>
    decreases s.len(),
{
    if s.len() == 0 {
        seq![Seq::<char>::empty()]
    } else {
        let before = split_at_char(s.drop_last(), sep);
        if s.last() == sep {
            before.push(Seq::<char>::empty())
        } else {
            before.drop_last().push(before.last().push(s.last()))
        }
    }
}

/// Splitting gives at least one part.
pub proof fn lemma_split_nonempty(s: Seq<char>, sep: char)
    ensures
        split_at_char(s, sep).len() >= 1,
    decreases s.len(),
{
    if s.len() > 0 {
        lemma_split_nonempty(s.drop_last(), sep);
    }
}

/// Splits a text at every occurrence of a separator.
pub fn split_chars(s: &str, sep: char) -> (r: Vec<String>)
    ensures
        r@.len() == split_at_char(s@, sep).len(),
        r@.len() >= 1,
        forall|i: int| 0 <= i < r@.len() ==> (#[trigger] r@[i])@ == split_at_char(s@, sep)[i],
{
    let text = chars_of(s);
    let mut parts: Vec<String> = Vec::new();
    let mut start: usize = 0;
    let mut i: usize = 0;
    proof {
        assert(text@.take(0) =~= Seq::<char>::empty());
    }
    while i < text.len()
        invariant
            start <= i <= text@.len(),
            text@ == s@,
            parts@.len() + 1 == split_at_char(text@.take(i as int), sep).len(),
            forall|k: int|
                0 <= k < parts@.len() ==> (#[trigger] parts@[k])@ == split_at_char(
                    text@.take(i as int),
                    sep,
                )[k],
            split_at_char(text@.take(i as int), sep).last() == text@.subrange(
                start as int,
                i as int,
            ),
        decreases text@.len() - i,
    {
        let ghost before = split_at_char(text@.take(i as int), sep);
        proof {
            let next = text@.take(i + 1);
            assert(next.drop_last() =~= text@.take(i as int));
            assert(next.last() == text@[i as int]);
        }
        if text[i] == sep {
            let part = owned(slice_chars(s, start, i));
            let ghost old_parts = parts@;
            parts.push(part);
            start = i + 1;
            proof {
                let now = split_at_char(text@.take(i + 1), sep);
                assert(now == before.push(Seq::<char>::empty()));
                assert(text@.subrange(i + 1, i + 1) =~= Seq::<char>::empty());
                assert forall|k: int| 0 <= k < parts@.len() implies (#[trigger] parts@[k])@
                    == now[k] by {
                    if k < old_parts.len() {
                        assert(parts@[k] == old_parts[k]);
                    }
                }
            }
        } else {
            proof {
                let now = split_at_char(text@.take(i + 1), sep);
                assert(now == before.drop_last().push(before.last().push(text@[i as int])));
                assert(text@.subrange(start as int, i + 1) =~= text@.subrange(
                    start as int,
                    i as int,
                ).push(text@[i as int]));
            }
        }
        i = i + 1;
    }
    assert(text@.take(text@.len() as int) =~= text@);
    let last = owned(slice_chars(s, start, i));
    let ghost old_parts = parts@;
    parts.push(last);
    proof {
        let all = split_at_char(s@, sep);
        assert forall|k: int| 0 <= k < parts@.len() implies (#[trigger] parts@[k])@ == all[k] by {
            if k < old_parts.len() {
                assert(parts@[k] == old_parts[k]);
            }
        }
    }
    parts
}

/// The parts of a text between runs of white space, as `str::split_whitespace`
/// gives them.
pub uninterp spec fn whitespace_fields(s: Seq<char>) -> Seq<Seq<char>>;

/// Collects what `str::split_whitespace` gives. The contract names the
/// result.
#[verifier::external_body]
pub(crate) fn split_whitespace(s: &str) -> (r: Vec<String>)
    ensures
        r@.len() == whitespace_fields(s@).len(),
        forall|i: int| 0 <= i < r@.len() ==> (#[trigger] r@[i])@ == whitespace_fields(s@)[i],
{
    s.split_whitespace().map(|part| part.to_string()).collect()
}

/// Why a text is no number of 64 bits without a sign, in the words of the
/// integer types' `parse`: it is empty, it holds something that is no
/// digit, or it stands for a number that is too large.
pub open spec fn number_fault(s: Seq<char>) -> Seq<char> {
    let digits = if s.len() > 0 && s[0] == '+' {
        s.drop_first()
    } else {
        s
    };
    if s.len() == 0 {
        "cannot parse integer from empty string"@
    } else if digits.len() == 0 || !all_digits(digits, 10) {
        "invalid digit found in string"@
    } else {
        "number too large to fit in target type"@
    }
}

/// Reads a number of 64 bits without a sign, or says why the text is none.
pub fn parse_u64_or_fault(s: &str) -> (r: Result<u64, &'static str>)
    ensures
        match parsed_number(s@, 10, u64::MAX) {
            Some(n) => r == Ok::<u64, &'static str>(n),
            None => r is Err && r->Err_0@ == number_fault(s@),
        },
{
    match parse_u64(s) {
        Some(n) => Ok(n),
        None => {
            let text = chars_of(s);
            if text.len() == 0 {
                return Err("cannot parse integer from empty string");
            }
            let start: usize = if text[0] == '+' {
                1
            } else {
                0
            };
            let ghost digits = if s@.len() > 0 && s@[0] == '+' {
                s@.drop_first()
            } else {
                s@
            };
            assert(digits =~= text@.skip(start as int));
            if start == text.len() {
                return Err("invalid digit found in string");
            }
            let mut i: usize = start;
            while i < text.len()
                invariant
                    start <= i <= text@.len(),
                    s@.len() > 0,
                    parsed_number(s@, 10, u64::MAX) is None,
                    digits == text@.skip(start as int),
                    digits == (if s@.len() > 0 && s@[0] == '+' {
                        s@.drop_first()
                    } else {
                        s@
                    }),
                    forall|k: int| start <= k < i ==> digit_value(#[trigger] text@[k], 10) is Some,
                decreases text@.len() - i,
            {
                let c = text[i];
                if !(c >= '0' && c <= '9') {
                    proof {
                        let at = i as int - start as int;
                        assert(digits[at] == text@[i as int]);
                        assert(!(48 <= c as int <= 57));
                        assert(digit_value(digits[at], 10) is None);
                        assert(!all_digits(digits, 10));
                    }
                    return Err("invalid digit found in string");
                }
                i = i + 1;
            }
            proof {
                assert forall|k: int| 0 <= k < digits.len() implies digit_value(
                    #[trigger] digits[k],
                    10,
                ) is Some by {
                    assert(digits[k] == text@[k + start]);
                }
            }
            Err("number too large to fit in target type")
        },
    }
}

/// A text without the occurrences of a character.
pub fn without_char(s: &str, c: char) -> (r: String)
    ensures
        r@ == s@.filter(|x: char| x != c),
{
    let text = chars_of(s);
    let mut out = String::new();
    let mut i: usize = 0;
    proof {
        assert(text@.take(0) =~= Seq::<char>::empty());
        reveal(Seq::filter);
    }
    while i < text.len()
        invariant
            i <= text@.len(),
            text@ == s@,
            out@ == text@.take(i as int).filter(|x: char| x != c),
        decreases text@.len() - i,
    {
        proof {
            let next = text@.take(i + 1);
            assert(next.drop_last() =~= text@.take(i as int));
            assert(next.last() == text@[i as int]);
            reveal(Seq::filter);
        }
        if text[i] != c {
            push_char(&mut out, text[i]);
        }
        i = i + 1;
    }
    assert(text@.take(text@.len() as int) =~= text@);
    out
}

} // verus!
