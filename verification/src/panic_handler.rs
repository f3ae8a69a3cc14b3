//! Controlled handling of panics: what is told of a panic before the
//! process ends, and what is appended to the crash log. Installing the hook
//! and writing the file are the program's part.

use vstd::prelude::*;
use vstd::string::*;
use crate::text::{decimal, join_path, joined_path, owned, push_decimal};

verus! {

/// The name of the crash log in the data directory.
pub const CRASH_LOG_FILE: &'static str = "crash.log";

/// The width of the rules that set a report off.
pub const RULE_WIDTH: usize = 80;

/// The path of the crash log in a data directory.
pub fn crash_log_path(data_dir: &str) -> (r: String)
    ensures
        r@ == joined_path(data_dir@, CRASH_LOG_FILE@),
{
    join_path(data_dir, CRASH_LOG_FILE)
}

/// A rule: 80 equals signs.
pub open spec fn rule_text() -> Seq<char> {
    Seq::new(RULE_WIDTH as nat, |i: int| '=')
}

/// A rule: 80 equals signs.
pub fn rule() -> (r: String)
    ensures
        r@ == rule_text(),
{
    let mut out = String::new();
    let mut i: usize = 0;
    while i < RULE_WIDTH
        invariant
            i <= RULE_WIDTH,
            out@ == Seq::new(i as nat, |k: int| '='),
        decreases RULE_WIDTH - i,
    {
        proof {
            reveal_strlit("=");
        }
        out.append("=");
        assert(out@ =~= Seq::new((i + 1) as nat, |k: int| '='));
        i = i + 1;
    }
    out
}

/// Where a panic happened.
#[derive(Debug, Clone, PartialEq, Eq)]
pub struct PanicLocation {
    pub file: String,
    pub line: u32,
    pub column: u32,
}

/// What is known of a panic.
#[derive(Debug, Clone, PartialEq, Eq)]
pub struct PanicReport {
    /// When it happened, as a text.
    pub timestamp: String,
    /// Where it happened, if known.
    pub location: Option<PanicLocation>,
    /// The message of the panic, if its payload is a text.
    pub message: Option<String>,
    /// The backtrace, if one was captured.
    pub backtrace: Option<String>,
}

/// The line of a report that says where the panic happened.
pub open spec fn location_line(location: Option<PanicLocation>) -> Seq<char> {
    match location {
        Some(l) => "Location: "@ + l.file@ + ":"@ + decimal(l.line as nat) + ":"@ + decimal(
            l.column as nat,
        ) + "\n"@,
        None => Seq::<char>::empty(),
    }
}

/// The line of a report that gives the panic's message.
pub open spec fn message_line(message: Option<String>) -> Seq<char> {
    match message {
        Some(m) => "Message: "@ + m@ + "\n"@,
        None => "Message: <unknown panic payload>\n"@,
    }
}

/// The end of a report: the backtrace, or the hint how to get one.
pub open spec fn backtrace_lines(backtrace: Option<String>) -> Seq<char> {
    match backtrace {
        Some(b) => "\nBacktrace:\n"@ + b@,
        None => "\nBacktrace: <not captured, set RUST_BACKTRACE=1>\n"@,
    }
}

/// The text of a report: the time, the location if it is known, the
/// message, and the backtrace.
pub open spec fn report_text(report: PanicReport) -> Seq<char> {
    "Timestamp: "@ + report.timestamp@ + "\n"@ + location_line(report.location) + message_line(
        report.message,
    ) + backtrace_lines(report.backtrace)
}

/// Format what is known of a panic.
pub fn format_panic_info(report: &PanicReport) -> (r: String)
    ensures
        r@ == report_text(*report),
{
    let mut msg = owned("Timestamp: ");
    msg.append(report.timestamp.as_str());
    msg.append("\n");
    let ghost head = msg@;
    match &report.location {
        Some(location) => {
            msg.append("Location: ");
            msg.append(location.file.as_str());
            msg.append(":");
            push_decimal(&mut msg, location.line as u64);
            msg.append(":");
            push_decimal(&mut msg, location.column as u64);
            msg.append("\n");
        },
        None => {},
    }
    assert(msg@ =~= head + location_line(report.location));
    let ghost located = msg@;
    match &report.message {
        Some(s) => {
            msg.append("Message: ");
            msg.append(s.as_str());
            msg.append("\n");
        },
        None => {
            msg.append("Message: <unknown panic payload>\n");
        },
    }
    assert(msg@ =~= located + message_line(report.message));
    let ghost told = msg@;
    match &report.backtrace {
        Some(b) => {
            msg.append("\nBacktrace:\n");
            msg.append(b.as_str());
        },
        None => {
            msg.append("\nBacktrace: <not captured, set RUST_BACKTRACE=1>\n");
        },
    }
    assert(msg@ =~= told + backtrace_lines(report.backtrace));
    msg
}

/// What one panic adds to the crash log: an empty line, a rule, and the
/// report, each ended by a line break.
pub open spec fn crash_log_text(message: Seq<char>) -> Seq<char> {
    "\n"@ + rule_text() + "\n"@ + message + "\n"@
}

/// What one panic adds to the crash log.
pub fn crash_log_entry(message: &str) -> (r: String)
    ensures
        r@ == crash_log_text(message@),
{
    let mut out = owned("\n");
    out.append(rule().as_str());
    out.append("\n");
    out.append(message);
    out.append("\n");
    out
}

/// What is printed of a panic: the report between rules, under a heading.
pub open spec fn banner_text(message: Seq<char>) -> Seq<char> {
    "\n"@ + rule_text() + "\nAERODB FATAL ERROR - PANIC\n"@ + rule_text() + "\n"@ + message
        + "\n"@ + rule_text() + "\n"@
}

/// What is printed of a panic.
pub fn panic_banner(message: &str) -> (r: String)
    ensures
        r@ == banner_text(message@),
{
    let line = rule();
    let mut out = owned("\n");
    out.append(line.as_str());
    out.append("\nAERODB FATAL ERROR - PANIC\n");
    out.append(line.as_str());
    out.append("\n");
    out.append(message);
    out.append("\n");
    out.append(line.as_str());
    out.append("\n");
    out
}

/// The value of an option that holds one.
pub fn safe_unwrap<T>(value: Option<T>) -> (r: T)
    requires
        value is Some,
    ensures
        r == value->Some_0,
{
    value.unwrap()
}

/// The value of a result that is `Ok`.
pub fn safe_unwrap_result<T, E>(value: Result<T, E>) -> (r: T)
    requires
        value is Ok,
    ensures
        r == value->Ok_0,
{
    match value {
        Ok(v) => v,
        Err(_) => vstd::pervasive::unreached(),
    }
}

} // verus!
