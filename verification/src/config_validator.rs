//! Validation of configuration values at startup.
//!
//! A validator collects every violation it is shown, each with the field's
//! name, the offending value and a message, so that all of them can be
//! reported at once.

use vstd::prelude::*;
use vstd::string::*;
use crate::text::{
    decimal,
    digit_char,
    digit_str,
    owned,
    push_decimal,
    push_signed_decimal,
    signed_decimal,
    starts_with,
    trim,
    trimmed,
};

verus! {

/// A violation found in the configuration.
#[derive(Debug, Clone, PartialEq, Eq)]
pub struct ConfigValidationError {
    pub field: String,
    pub value: String,
    pub message: String,
}

impl ConfigValidationError {
    /// The violation as one line.
    pub open spec fn display_text(&self) -> Seq<char> {
        "Invalid configuration for '"@ + self.field@ + "': "@ + self.message@ + " (value: "@
            + self.value@ + ")"@
    }

    /// The violation as one line: the field, the message, the value.
    pub fn to_string(&self) -> (r: String)
        ensures
            r@ == self.display_text(),
    {
        let mut out = owned("Invalid configuration for '");
        out.append(self.field.as_str());
        out.append("': ");
        out.append(self.message.as_str());
        out.append(" (value: ");
        out.append(self.value.as_str());
        out.append(")");
        out
    }
}

/// Result of config validation.
pub type ConfigResult<T> = Result<T, Vec<ConfigValidationError>>;

/// Bytes in a kibibyte.
pub const KB: u64 = 1024;

/// Bytes in a mebibyte.
pub const MB: u64 = 1048576;

/// Bytes in a gibibyte.
pub const GB: u64 = 1073741824;

/// The first number that has more than 53 significant bits.
pub const TWO_53: u64 = 9007199254740992;

/// The spacing of the double-precision numbers around `n`: one below 2^53,
/// then doubling with every further bit.
pub open spec fn spacing(n: nat) -> nat
    decreases n,
{
    if n < TWO_53 {
        1
    } else {
        2 * spacing(n / 2)
    }
}

/// `n` in units of `unit`, rounded to the nearest whole number, halves to the
/// even neighbour.
pub open spec fn rounded_quotient(n: nat, unit: nat) -> nat {
    let q = n / unit;
    let r = n % unit;
    if 2 * r > unit || (2 * r == unit && q % 2 == 1) {
        q + 1
    } else {
        q
    }
}

/// The double-precision number nearest to `n`, halves to the even neighbour.
pub open spec fn nearest_double(n: nat) -> nat {
    rounded_quotient(n, spacing(n)) * spacing(n)
}

/// A count of tenths written with one decimal place.
pub open spec fn one_decimal(tenths: nat) -> Seq<char> {
    decimal(tenths / 10) + "."@ + seq![digit_char(tenths % 10)]
}

/// A size in bytes in human-readable form: below a kibibyte the bytes with
/// `B`; from there on the nearest double-precision number to the size, in
/// the largest of the units KB, MB and GB that it reaches, rounded to one
/// decimal place with halves to the even neighbour.
pub open spec fn bytes_text(bytes: u64) -> Seq<char> {
    if bytes >= GB {
        one_decimal(rounded_quotient(nearest_double(bytes as nat) * 10, GB as nat)) + "GB"@
    } else if bytes >= MB {
        one_decimal(rounded_quotient(nearest_double(bytes as nat) * 10, MB as nat)) + "MB"@
    } else if bytes >= KB {
        one_decimal(rounded_quotient(nearest_double(bytes as nat) * 10, KB as nat)) + "KB"@
    } else {
        decimal(bytes as nat) + "B"@
    }
}

fn round_quotient(n: u128, unit: u128) -> (r: u128)
    requires
        unit > 0,
        n <= 0xFFFF_FFFF_FFFF_FFFF_FFFF,
        unit <= 0xFFFF_FFFF_FFFF_FFFF,
    ensures
        r == rounded_quotient(n as nat, unit as nat),
        r <= n / unit + 1,
{
    let q = n / unit;
    let r = n % unit;
    if 2 * r > unit || (2 * r == unit && q % 2 == 1) {
        q + 1
    } else {
        q
    }
}

fn nearest_double_of(n: u64) -> (r: u128)
    ensures
        r == nearest_double(n as nat),
        r <= 0x1_0000_0000_0000_0000,
{
    let mut unit: u128 = 1;
    let mut m: u64 = n;
    while m >= TWO_53
        invariant
            unit == 1 || unit == 2 || unit == 4 || unit == 8 || unit == 16 || unit == 32 || unit
                == 64 || unit == 128 || unit == 256 || unit == 512 || unit == 1024 || unit
                == 2048,
            unit as int * m as int <= n as int,
            m as int == n as int / unit as int,
            spacing(n as nat) == unit as nat * spacing(m as nat),
        decreases m,
    {
        proof {
            vstd::arithmetic::div_mod::lemma_div_denominator(n as int, unit as int, 2);
            assert(unit != 2048) by {
                if unit == 2048 {
                    assert(unit as int * m as int == 2048 * m as int);
                }
            }
            assert((unit as int * 2) * (m as int / 2) <= n as int) by (nonlinear_arith)
                requires
                    unit as int * m as int <= n as int,
                    unit as int >= 1,
                    m as int >= 0,
            ;
            assert(unit as nat * (2 * spacing(m as nat / 2)) == (unit as nat * 2) * spacing(
                m as nat / 2,
            )) by (nonlinear_arith);
        }
        m = m / 2;
        unit = unit * 2;
    }
    let q = round_quotient(n as u128, unit);
    proof {
        assert(spacing(m as nat) == 1);
        assert(unit as nat * 1 == unit as nat);
        assert(q as int <= TWO_53 as int);
        assert(q as int * unit as int <= TWO_53 as int * 2048) by (nonlinear_arith)
            requires
                0 <= q as int <= TWO_53 as int,
                0 <= unit as int <= 2048,
        ;
    }
    q * unit
}

fn push_one_decimal(out: &mut String, tenths: u64)
    ensures
        final(out)@ == old(out)@ + one_decimal(tenths as nat),
{
    push_decimal(out, tenths / 10);
    out.append(".");
    out.append(digit_str((tenths % 10) as u8));
    proof {
        reveal_strlit(".");
        assert(out@ =~= old(out)@ + one_decimal(tenths as nat));
    }
}

fn push_in_unit(out: &mut String, bytes: u64, unit: u64)
    requires
        unit >= 1024,
    ensures
        final(out)@ == old(out)@ + one_decimal(
            rounded_quotient(nearest_double(bytes as nat) * 10, unit as nat),
        ),
{
    let image = nearest_double_of(bytes);
    let tenths = round_quotient(image * 10, unit as u128);
    assert(tenths <= 0xFFFF_FFFF_FFFF_FFFF) by {
        assert((image as int * 10) / (unit as int) <= (0x1_0000_0000_0000_0000int * 10) / 1024)
            by (nonlinear_arith)
            requires
                0 <= image as int <= 0x1_0000_0000_0000_0000,
                unit as int >= 1024,
        ;
    }
    push_one_decimal(out, tenths as u64);
}

/// Format bytes as human-readable string.
pub fn format_bytes(bytes: u64) -> (r: String)
    ensures
        r@ == bytes_text(bytes),
{
    let mut out = String::new();
    if bytes >= GB {
        push_in_unit(&mut out, bytes, GB);
        out.append("GB");
    } else if bytes >= MB {
        push_in_unit(&mut out, bytes, MB);
        out.append("MB");
    } else if bytes >= KB {
        push_in_unit(&mut out, bytes, KB);
        out.append("KB");
    } else {
        push_decimal(&mut out, bytes);
        out.append("B");
    }
    assert(out@ =~= bytes_text(bytes));
    out
}

/// The message of a value outside a range of integers.
pub open spec fn range_message(min: i64, max: i64) -> Seq<char> {
    "Value must be between "@ + signed_decimal(min as int) + " and "@ + signed_decimal(max as int)
}

/// The message of a duration outside its range.
pub open spec fn duration_message(min_ms: u64, max_ms: u64) -> Seq<char> {
    "Duration must be between "@ + decimal(min_ms as nat) + "ms and "@ + decimal(max_ms as nat)
        + "ms"@
}

/// The message of a size outside its range.
pub open spec fn size_message(min_bytes: u64, max_bytes: u64) -> Seq<char> {
    "Size must be between "@ + bytes_text(min_bytes) + " and "@ + bytes_text(max_bytes)
}

/// Whether a URL is acceptable: empty, or starting with `http://` or
/// `https://`.
pub open spec fn url_is_acceptable(value: Seq<char>) -> bool {
    value.len() == 0 || "http://"@.is_prefix_of(value) || "https://"@.is_prefix_of(value)
}

/// Whether `e` reports `message` for the field and the value given.
pub open spec fn reports(
    e: ConfigValidationError,
    field: Seq<char>,
    value: Seq<char>,
    message: Seq<char>,
) -> bool {
    e.field@ == field && e.value@ == value && e.message@ == message
}

/// Configuration validator.
#[derive(Debug)]
pub struct ConfigValidator {
    errors: Vec<ConfigValidationError>,
}

impl ConfigValidator {
    /// The violations collected so far, in the order they were found.
    pub closed spec fn found(&self) -> Seq<ConfigValidationError> {
        self.errors@
    }

    /// The validator after a check: unchanged when the check passed, else
    /// with one more violation that reports the message for the field and
    /// the value.
    pub open spec fn checked(
        &self,
        before: &Self,
        passed: bool,
        field: Seq<char>,
        value: Seq<char>,
        message: Seq<char>,
    ) -> bool {
        if passed {
            self.found() == before.found()
        } else {
            &&& self.found().len() == before.found().len() + 1
            &&& self.found().drop_last() == before.found()
            &&& reports(self.found().last(), field, value, message)
        }
    }

    /// A validator that has found nothing.
    pub fn new() -> (r: Self)
        ensures
            r.found() == Seq::<ConfigValidationError>::empty(),
    {
        ConfigValidator { errors: Vec::new() }
    }

    fn error(&mut self, field: &str, value: String, message: String)
        ensures
            final(self).checked(old(self), false, field@, value@, message@),
    {
        let ghost before = self.errors@;
        self.errors.push(ConfigValidationError { field: owned(field), value, message });
        assert(self.errors@.drop_last() =~= before);
    }

    /// Validate port number (1-65535).
    pub fn validate_port(&mut self, field: &str, port: u16) -> (r: &mut Self)
        ensures
            r.checked(
                old(self),
                port != 0,
                field@,
                decimal(port as nat),
                "Port must be between 1 and 65535"@,
            ),
            *final(self) == *final(r),
    {
        if port == 0 {
            let mut value = String::new();
            push_decimal(&mut value, port as u64);
            assert(value@ =~= decimal(port as nat));
            self.error(field, value, owned("Port must be between 1 and 65535"));
        }
        self
    }

    /// Validate positive integer.
    pub fn validate_positive(&mut self, field: &str, value: i64) -> (r: &mut Self)
        ensures
            r.checked(
                old(self),
                value > 0,
                field@,
                signed_decimal(value as int),
                "Value must be positive"@,
            ),
            *final(self) == *final(r),
    {
        if value <= 0 {
            let mut text = String::new();
            push_signed_decimal(&mut text, value);
            assert(text@ =~= signed_decimal(value as int));
            self.error(field, text, owned("Value must be positive"));
        }
        self
    }

    /// Validate non-negative integer.
    pub fn validate_non_negative(&mut self, field: &str, value: i64) -> (r: &mut Self)
        ensures
            r.checked(
                old(self),
                value >= 0,
                field@,
                signed_decimal(value as int),
                "Value must be non-negative"@,
            ),
            *final(self) == *final(r),
    {
        if value < 0 {
            let mut text = String::new();
            push_signed_decimal(&mut text, value);
            assert(text@ =~= signed_decimal(value as int));
            self.error(field, text, owned("Value must be non-negative"));
        }
        self
    }

    /// Validate range (inclusive).
    pub fn validate_range(&mut self, field: &str, value: i64, min: i64, max: i64) -> (r: &mut Self)
        ensures
            r.checked(
                old(self),
                min <= value <= max,
                field@,
                signed_decimal(value as int),
                range_message(min, max),
            ),
            *final(self) == *final(r),
    {
        if value < min || value > max {
            let mut text = String::new();
            push_signed_decimal(&mut text, value);
            assert(text@ =~= signed_decimal(value as int));
            let mut message = owned("Value must be between ");
            push_signed_decimal(&mut message, min);
            message.append(" and ");
            push_signed_decimal(&mut message, max);
            self.error(field, text, message);
        }
        self
    }

    /// Validate that a path exists, given whether it does.
    pub fn validate_path_exists(&mut self, field: &str, path: &str, exists: bool) -> (r: &mut Self)
        ensures
            r.checked(old(self), exists, field@, path@, "Path does not exist"@),
            *final(self) == *final(r),
    {
        if !exists {
            self.error(field, owned(path), owned("Path does not exist"));
        }
        self
    }

    /// Validate that a path is a directory, given whether it exists and
    /// whether it is one. A path that does not exist passes.
    pub fn validate_is_directory(
        &mut self,
        field: &str,
        path: &str,
        exists: bool,
        is_dir: bool,
    ) -> (r: &mut Self)
        ensures
            r.checked(old(self), !(exists && !is_dir), field@, path@, "Path is not a directory"@),
            *final(self) == *final(r),
    {
        if exists && !is_dir {
            self.error(field, owned(path), owned("Path is not a directory"));
        }
        self
    }

    /// Validate that a path is writable, given whether it exists and whether
    /// a file could be written in it. A path that does not exist passes.
    pub fn validate_writable(
        &mut self,
        field: &str,
        path: &str,
        exists: bool,
        writable: bool,
    ) -> (r: &mut Self)
        ensures
            r.checked(old(self), !(exists && !writable), field@, path@, "Path is not writable"@),
            *final(self) == *final(r),
    {
        if exists && !writable {
            self.error(field, owned(path), owned("Path is not writable"));
        }
        self
    }

    /// Validate non-empty string: one that holds more than white space.
    pub fn validate_non_empty(&mut self, field: &str, value: &str) -> (r: &mut Self)
        ensures
            r.checked(
                old(self),
                trimmed(value@).len() != 0,
                field@,
                value@,
                "Value cannot be empty"@,
            ),
            *final(self) == *final(r),
    {
        let core = trim(value);
        if core.is_empty() {
            self.error(field, owned(value), owned("Value cannot be empty"));
        }
        self
    }

    /// Validate URL format.
    pub fn validate_url(&mut self, field: &str, value: &str) -> (r: &mut Self)
        ensures
            r.checked(
                old(self),
                url_is_acceptable(value@),
                field@,
                value@,
                "URL must start with http:// or https://"@,
            ),
            *final(self) == *final(r),
    {
        if !value.is_empty() && !starts_with(value, "http://") && !starts_with(value, "https://") {
            self.error(field, owned(value), owned("URL must start with http:// or https://"));
        }
        self
    }

    /// Validate duration in milliseconds.
    pub fn validate_duration_ms(&mut self, field: &str, ms: u64, min_ms: u64, max_ms: u64) -> (r:
        &mut Self)
        ensures
            r.checked(
                old(self),
                min_ms <= ms <= max_ms,
                field@,
                decimal(ms as nat) + "ms"@,
                duration_message(min_ms, max_ms),
            ),
            *final(self) == *final(r),
    {
        if ms < min_ms || ms > max_ms {
            let mut value = String::new();
            push_decimal(&mut value, ms);
            value.append("ms");
            assert(value@ =~= decimal(ms as nat) + "ms"@);
            let mut message = owned("Duration must be between ");
            push_decimal(&mut message, min_ms);
            message.append("ms and ");
            push_decimal(&mut message, max_ms);
            message.append("ms");
            self.error(field, value, message);
        }
        self
    }

    /// Validate bytes with human-readable limits.
    pub fn validate_bytes(&mut self, field: &str, bytes: u64, min_bytes: u64, max_bytes: u64) -> (r:
        &mut Self)
        ensures
            r.checked(
                old(self),
                min_bytes <= bytes <= max_bytes,
                field@,
                bytes_text(bytes),
                size_message(min_bytes, max_bytes),
            ),
            *final(self) == *final(r),
    {
        if bytes < min_bytes || bytes > max_bytes {
            let value = format_bytes(bytes);
            let mut message = owned("Size must be between ");
            let low = format_bytes(min_bytes);
            message.append(low.as_str());
            message.append(" and ");
            let high = format_bytes(max_bytes);
            message.append(high.as_str());
            self.error(field, value, message);
        }
        self
    }

    /// Finish validation: `Ok` when nothing was found, else all violations
    /// in the order they were found.
    pub fn finish(self) -> (r: ConfigResult<()>)
        ensures
            self.found().len() == 0 ==> r is Ok,
            self.found().len() > 0 ==> r is Err && r->Err_0@ == self.found(),
    {
        if self.errors.len() == 0 {
            Ok(())
        } else {
            Err(self.errors)
        }
    }

    /// Check if any errors occurred.
    pub fn has_errors(&self) -> (r: bool)
        ensures
            r == (self.found().len() > 0),
    {
        self.errors.len() > 0
    }

    /// Get current errors.
    pub fn errors(&self) -> (r: &[ConfigValidationError])
        ensures
            r@ == self.found(),
    {
        self.errors.as_slice()
    }
}

impl Default for ConfigValidator {
    fn default() -> (r: Self)
        ensures
            r.found() == Seq::<ConfigValidationError>::empty(),
    {
        ConfigValidator::new()
    }
}

/// The violations as a list, one per line, each after two spaces and a dash.
pub open spec fn error_list_text(errors: Seq<ConfigValidationError>) -> Seq<char>
    decreases errors.len(),
{
    if errors.len() == 0 {
        Seq::<char>::empty()
    } else if errors.len() == 1 {
        "  - "@ + errors[0].display_text()
    } else {
        error_list_text(errors.drop_last()) + "\n"@ + ("  - "@ + errors.last().display_text())
    }
}

/// Format validation errors for display.
pub fn format_validation_errors(errors: &[ConfigValidationError]) -> (r: String)
    ensures
        r@ == error_list_text(errors@),
{
    let mut out = String::new();
    let mut i: usize = 0;
    assert(errors@.take(0) =~= Seq::<ConfigValidationError>::empty());
    while i < errors.len()
        invariant
            i <= errors@.len(),
            out@ == error_list_text(errors@.take(i as int)),
        decreases errors@.len() - i,
    {
        let ghost before = out@;
        if i > 0 {
            out.append("\n");
        }
        let line = errors[i].to_string();
        let mut item = owned("  - ");
        item.append(line.as_str());
        out.append(item.as_str());
        proof {
            let next = errors@.take(i + 1);
            assert(next.drop_last() =~= errors@.take(i as int));
            assert(next.last() == errors@[i as int]);
            if i == 0 {
                assert(next[0] == errors@[0]);
                assert(before =~= Seq::<char>::empty());
                assert(out@ =~= "  - "@ + errors@[0].display_text());
            }
        }
        i = i + 1;
    }
    assert(errors@.take(errors@.len() as int) =~= errors@);
    out
}

} // verus!
