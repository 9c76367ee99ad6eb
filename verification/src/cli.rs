//! Decisions of the command line tool: its options, the log level that a
//! verbosity selects, the parsing of durations, the message of a failed
//! stream, and how the process ends.

pub mod web;

use vstd::prelude::*;
use vstd::string::*;

use crate::text::{decimal, digit_char, lemma_decimal_nonempty, lemma_digit_char_value};

verus! {

/// The tool's options.
#[derive(Debug, PartialEq)]
pub struct Options {
    /// How often the verbosity flag was given.
    pub verbose: u16,
    pub cmd: SubCmds,
}

/// The tool's subcommands.
#[derive(Debug, PartialEq)]
pub enum SubCmds {
    /// Accessing devices using web/HTTP APIs.
    Web(web::Options),
}

/// The level up to which log records are shown.
#[derive(Debug, Clone, Copy, PartialEq, Eq, Structural)]
pub enum LogLevel {
    Warn,
    Info,
    Debug,
    Trace,
}

/// The log level that `verbose` repetitions of the verbosity flag select:
/// warnings only by default, one more level per repetition, all from three on.
pub open spec fn spec_log_level(verbose: u16) -> LogLevel {
    if verbose == 0 {
        LogLevel::Warn
    } else if verbose == 1 {
        LogLevel::Info
    } else if verbose == 2 {
        LogLevel::Debug
    } else {
        LogLevel::Trace
    }
}

/// The log level that the options select.
pub fn log_level(verbose: u16) -> (r: LogLevel)
    ensures
        r == spec_log_level(verbose),
{
    match verbose {
        0 => LogLevel::Warn,
        1 => LogLevel::Info,
        2 => LogLevel::Debug,
        _ => LogLevel::Trace,
    }
}

/// The verbosity of a log level, from the least verbose.
pub open spec fn level_rank(l: LogLevel) -> int {
    match l {
        LogLevel::Warn => 0,
        LogLevel::Info => 1,
        LogLevel::Debug => 2,
        LogLevel::Trace => 3,
    }
}

/// No flag shows warnings, one info, two debug, three or more everything.
pub proof fn lemma_log_level_table(v: u16)
    ensures
        spec_log_level(0) == LogLevel::Warn,
        spec_log_level(1) == LogLevel::Info,
        spec_log_level(2) == LogLevel::Debug,
        v >= 3 ==> spec_log_level(v) == LogLevel::Trace,
{
}

/// Giving the verbosity flag more often never shows fewer log records.
pub proof fn lemma_log_level_monotonic(a: u16, b: u16)
    requires
        a <= b,
    ensures
        level_rank(spec_log_level(a)) <= level_rank(spec_log_level(b)),
{
}

/// The value of a nonempty sequence of decimal digits.
pub open spec fn digits_value(ds: Seq<char>) -> int
    decreases ds.len(),
{
    if ds.len() == 0 {
        0
    } else {
        digits_value(ds.drop_last()) * 10 + (ds.last() as int - '0' as int)
    }
}

/// Whether every character of `ds` is an ASCII decimal digit.
pub open spec fn all_digits(ds: Seq<char>) -> bool {
    forall|i: int| 0 <= i < ds.len() ==> '0' <= #[trigger] ds[i] && ds[i] <= '9'
}

/// The digits of `s` after an optional leading `+`.
pub open spec fn unsigned_digits(s: Seq<char>) -> Seq<char> {
    if s.len() > 0 && s[0] == '+' {
        s.drop_first()
    } else {
        s
    }
}

/// What reading `s` as an unsigned 64-bit decimal number gives: an optional
/// `+` followed by at least one digit, and a value that fits.
pub open spec fn spec_parse_u64(s: Seq<char>) -> Option<u64> {
    let ds = unsigned_digits(s);
    if ds.len() > 0 && all_digits(ds) && digits_value(ds) <= u64::MAX {
        Some(digits_value(ds) as u64)
    } else {
        None
    }
}

/// The digits at the start of `ds`, up to the first character that is not one.
pub open spec fn leading_digits(ds: Seq<char>) -> Seq<char>
    decreases ds.len(),
{
    if ds.len() == 0 || !('0' <= ds[0] && ds[0] <= '9') {
        Seq::empty()
    } else {
        seq![ds[0]] + leading_digits(ds.drop_first())
    }
}

/// Why a text is not an unsigned number.
#[derive(Debug, Clone, Copy, PartialEq, Eq, Structural)]
pub enum ParseIntErrorKind {
    /// The text is empty.
    Empty,
    /// The text holds a character that is not a digit in its place.
    InvalidDigit,
    /// The number is too large for the type.
    PosOverflow,
    /// The number is too small for the type.
    NegOverflow,
    /// The number is zero where zero is not allowed.
    Zero,
    /// A kind that none of the others describes.
    Other,
}

/// A text that could not be read as a number, and why.
#[derive(Debug, Clone, Copy, PartialEq, Eq, Structural)]
pub struct ParseIntError {
    pub kind: ParseIntErrorKind,
}

/// Why reading `s` as an unsigned 64-bit number fails, where that is
/// determined: an empty text; a sign without digits, or a character that is
/// not a digit after digits that still fit; digits only, but too many.
pub open spec fn spec_parse_u64_error(s: Seq<char>) -> Option<ParseIntErrorKind> {
    let ds = unsigned_digits(s);
    if s.len() == 0 {
        Some(ParseIntErrorKind::Empty)
    } else if ds.len() == 0 {
        Some(ParseIntErrorKind::InvalidDigit)
    } else if all_digits(ds) {
        if digits_value(ds) > u64::MAX {
            Some(ParseIntErrorKind::PosOverflow)
        } else {
            None
        }
    } else if digits_value(leading_digits(ds)) <= u64::MAX {
        Some(ParseIntErrorKind::InvalidDigit)
    } else {
        None
    }
}

/// What `Duration::from_secs(secs)` gives.
pub uninterp spec fn duration_of_secs(secs: u64) -> std::time::Duration;

/// Reads an unsigned 64-bit number with `u64::from_str`, and gives the kind
/// of its error (`ParseIntError::kind`) where it fails.
/// Trusted: as its documentation says, the text must be an optional `+`
/// followed by decimal digits only, and the value must fit; then the value
/// is returned. Else the error is `Empty` for the empty text, `InvalidDigit`
/// for a sign on its own or a character that is not a digit (where the digits
/// before it fit), `PosOverflow` for digits whose value does not fit; where a
/// text both overflows and holds a non-digit, only that it is one of these
/// two is stated.
#[verifier::external_body]
fn parse_u64(s: &str) -> (r: Result<u64, ParseIntErrorKind>)
    ensures
        r is Ok <==> spec_parse_u64(s@) is Some,
        r is Ok ==> spec_parse_u64(s@) == Some(r->Ok_0),
        r is Err ==> (r->Err_0 == ParseIntErrorKind::Empty || r->Err_0
            == ParseIntErrorKind::InvalidDigit || r->Err_0 == ParseIntErrorKind::PosOverflow),
        r is Err && spec_parse_u64_error(s@) is Some ==> spec_parse_u64_error(s@) == Some(
            r->Err_0,
        ),
{
    match <u64 as std::str::FromStr>::from_str(s) {
        Ok(n) => Ok(n),
        Err(e) => Err(match e.kind() {
            std::num::IntErrorKind::Empty => ParseIntErrorKind::Empty,
            std::num::IntErrorKind::InvalidDigit => ParseIntErrorKind::InvalidDigit,
            std::num::IntErrorKind::PosOverflow => ParseIntErrorKind::PosOverflow,
            std::num::IntErrorKind::NegOverflow => ParseIntErrorKind::NegOverflow,
            std::num::IntErrorKind::Zero => ParseIntErrorKind::Zero,
            _ => ParseIntErrorKind::Other,
        }),
    }
}

/// Makes a duration of `secs` whole seconds with `Duration::from_secs`.
/// Trusted: the result is the named result for `secs`.
#[verifier::external_body]
fn duration_from_secs(secs: u64) -> (r: std::time::Duration)
    ensures
        r == duration_of_secs(secs),
{
    std::time::Duration::from_secs(secs)
}

/// Reads a number of seconds as a duration.
pub fn parse_duration(secs_str: &str) -> (r: Result<std::time::Duration, ParseIntError>)
    ensures
        r is Ok <==> spec_parse_u64(secs_str@) is Some,
        r is Ok ==> r->Ok_0 == duration_of_secs(spec_parse_u64(secs_str@)->0),
        r is Err ==> (r->Err_0.kind == ParseIntErrorKind::Empty || r->Err_0.kind
            == ParseIntErrorKind::InvalidDigit || r->Err_0.kind == ParseIntErrorKind::PosOverflow),
        r is Err && spec_parse_u64_error(secs_str@) is Some ==> spec_parse_u64_error(secs_str@)
            == Some(r->Err_0.kind),
{
    match parse_u64(secs_str) {
        Ok(secs) => Ok(duration_from_secs(secs)),
        Err(kind) => Err(ParseIntError { kind }),
    }
}

/// The decimal text of `n` is all digits, and their value is `n`.
proof fn lemma_decimal_digits(n: nat)
    ensures
        all_digits(decimal(n)),
        digits_value(decimal(n)) == n,
    decreases n,
{
    let d = decimal(n);
    lemma_digit_char_value(n % 10);
    if n < 10 {
        assert(d.drop_last() =~= Seq::<char>::empty());
        assert(d.last() == digit_char(n % 10));
        assert(digits_value(d) == digits_value(d.drop_last()) * 10 + (d.last() as int - '0' as int));
    } else {
        lemma_decimal_digits(n / 10);
        assert(d.drop_last() =~= decimal(n / 10));
        assert(d.last() == digit_char(n % 10));
        assert(digits_value(d) == digits_value(d.drop_last()) * 10 + (d.last() as int - '0' as int));
        assert forall|i: int| 0 <= i < d.len() implies '0' <= #[trigger] d[i] && d[i] <= '9' by {
            if i < d.len() - 1 {
                assert(d[i] == decimal(n / 10)[i]);
            }
        }
    }
}

/// Reading the decimal text of a number gives the number back.
pub proof fn lemma_parse_decimal_roundtrip(n: u64)
    ensures
        spec_parse_u64(decimal(n as nat)) == Some(n),
{
    lemma_decimal_digits(n as nat);
    lemma_decimal_nonempty(n as nat);
    let d = decimal(n as nat);
    assert('0' <= d[0] && d[0] <= '9');
    assert(unsigned_digits(d) == d);
}

/// A leading zero digit does not change a number's value.
proof fn lemma_leading_zero_value(ds: Seq<char>)
    ensures
        digits_value(seq!['0'] + ds) == digits_value(ds),
    decreases ds.len(),
{
    let z = seq!['0'] + ds;
    if ds.len() > 0 {
        assert(z.drop_last() =~= seq!['0'] + ds.drop_last());
        assert(z.last() == ds.last());
        lemma_leading_zero_value(ds.drop_last());
        assert(digits_value(z) == digits_value(z.drop_last()) * 10 + (z.last() as int - '0' as int));
    } else {
        assert(z.drop_last() =~= Seq::<char>::empty());
        assert(z.last() == '0');
        assert(digits_value(z) == digits_value(z.drop_last()) * 10 + (z.last() as int - '0' as int));
    }
}

/// A leading `0` or `+` before digits changes neither the number read nor
/// why reading fails.
pub proof fn lemma_leading_zero_or_plus(ds: Seq<char>)
    requires
        ds.len() > 0,
        all_digits(ds),
    ensures
        spec_parse_u64(seq!['0'] + ds) == spec_parse_u64(ds),
        spec_parse_u64_error(seq!['0'] + ds) == spec_parse_u64_error(ds),
        spec_parse_u64(seq!['+'] + ds) == spec_parse_u64(ds),
        spec_parse_u64_error(seq!['+'] + ds) == spec_parse_u64_error(ds),
{
    let z = seq!['0'] + ds;
    let p = seq!['+'] + ds;
    lemma_leading_zero_value(ds);
    assert(ds[0] != '+');
    assert(unsigned_digits(ds) == ds);
    assert(z[0] == '0');
    assert(unsigned_digits(z) == z);
    assert(all_digits(z)) by {
        assert forall|i: int| 0 <= i < z.len() implies '0' <= #[trigger] z[i] && z[i] <= '9' by {
            if i > 0 {
                assert(z[i] == ds[i - 1]);
            }
        }
    }
    assert(p[0] == '+');
    assert(unsigned_digits(p) =~= ds);
}

/// The message of a failed stream: the failure, after what was being done.
pub fn stream_error_message(err: &str) -> (r: String)
    ensures
        r@ == "error while streaming DAQ data: "@ + err@,
{
    let mut s = String::new();
    s.append("error while streaming DAQ data: ");
    s.append(err);
    s
}

/// What ends the tool: an interrupt, or the end of its task.
#[derive(Debug, Clone, Copy, PartialEq, Eq, Structural)]
pub enum ExitSignal {
    CtrlC,
    TaskFinished { failed: bool },
}

/// The message that a signal puts on the exit channel: whether it was an
/// interrupt, and the exit code.
pub open spec fn spec_exit_message(signal: ExitSignal) -> (bool, i32) {
    match signal {
        ExitSignal::CtrlC => (true, 0i32),
        ExitSignal::TaskFinished { failed } => (false, if failed {
            -1i32
        } else {
            0i32
        }),
    }
}

/// The message that a signal puts on the exit channel.
pub fn exit_message(signal: ExitSignal) -> (r: (bool, i32))
    ensures
        r == spec_exit_message(signal),
{
    match signal {
        ExitSignal::CtrlC => (true, 0),
        ExitSignal::TaskFinished { failed } => (false, if failed {
            -1
        } else {
            0
        }),
    }
}

/// What the tool does on an exit message.
#[derive(Debug, Clone, Copy, PartialEq, Eq, Structural)]
pub struct ExitPlan {
    /// Whether the running task is aborted first.
    pub abort_task: bool,
    /// The code the process exits with.
    pub code: i32,
}

/// What the tool does on the exit message `(ctrl_c, code)`: abort the task
/// on an interrupt, then exit with the code.
pub fn exit_plan(message: (bool, i32)) -> (r: ExitPlan)
    ensures
        r.abort_task == message.0,
        r.code == message.1,
{
    let (ctrl_c, code) = message;
    ExitPlan { abort_task: ctrl_c, code }
}

/// The tool exits with code 0 unless its task failed, in which case it exits
/// with -1; it aborts the task exactly when it is interrupted.
pub proof fn lemma_exit_outcome(signal: ExitSignal)
    ensures
        spec_exit_message(signal).0 <==> signal == ExitSignal::CtrlC,
        spec_exit_message(signal).1 == (if signal == (ExitSignal::TaskFinished { failed: true }) {
            -1i32
        } else {
            0i32
        }),
{
}

} // verus!
