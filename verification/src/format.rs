//! How an elapsed time is written: the unit, the number, and the line around them.

use crate::decimal::{decimal_string, decimal_text};
use crate::elapsed::{Elapsed, NANOS_PER_SEC};
use std::time::Duration;
use vstd::prelude::*;

verus! {

/// The largest number of fractional digits that can be asked for: std's
/// formatting takes no precision above `u16::MAX`.
pub const MAX_PRECISION: usize = 65_535;

/// The unit in which an elapsed time is written. The two fractional variants
/// carry the number of digits after the decimal point.
#[derive(Clone, Copy, Debug, PartialEq, Eq)]
pub enum TimeFormat {
    /// Whole seconds.
    Seconds,
    /// Seconds as a 32-bit float.
    SecondsF32(usize),
    /// Seconds as a 64-bit float.
    SecondsF64(usize),
    /// Whole milliseconds.
    Milliseconds,
    /// Whole microseconds.
    Microseconds,
    /// Whole nanoseconds.
    Nanoseconds,
}

/// The text of `secs` seconds and `nanos` nanoseconds, taken as a 32-bit
/// float of seconds and written in fixed notation with `precision` digits
/// after the decimal point.
pub uninterp spec fn seconds_f32_text(secs: u64, nanos: u32, precision: usize) -> Seq<char>;

/// The text of `secs` seconds and `nanos` nanoseconds, taken as a 64-bit
/// float of seconds and written in fixed notation with `precision` digits
/// after the decimal point.
pub uninterp spec fn seconds_f64_text(secs: u64, nanos: u32, precision: usize) -> Seq<char>;

/// Trusted: `Duration::as_secs_f32` of `Duration::new(secs, nanos)`, written
/// by `format!` with std's `Display` for floats at the given precision. The
/// contract only gives the resulting text its name: it depends on the three
/// arguments and on nothing else. What is asked of the arguments keeps std
/// from panicking: `Duration::new` does not carry while `nanos` is below
/// one second, and the formatting takes a precision up to `u16::MAX`.
#[verifier::external_body]
fn seconds_f32_string(secs: u64, nanos: u32, precision: usize) -> (s: String)
    requires
        nanos < NANOS_PER_SEC,
        precision <= MAX_PRECISION,
    ensures
        s@ == seconds_f32_text(secs, nanos, precision),
{
    format!("{:.precision$}", Duration::new(secs, nanos).as_secs_f32(), precision = precision)
}

/// Trusted: `Duration::as_secs_f64` of `Duration::new(secs, nanos)`, written
/// by `format!` with std's `Display` for floats at the given precision. The
/// contract only gives the resulting text its name: it depends on the three
/// arguments and on nothing else. What is asked of the arguments keeps std
/// from panicking: `Duration::new` does not carry while `nanos` is below
/// one second, and the formatting takes a precision up to `u16::MAX`.
#[verifier::external_body]
fn seconds_f64_string(secs: u64, nanos: u32, precision: usize) -> (s: String)
    requires
        nanos < NANOS_PER_SEC,
        precision <= MAX_PRECISION,
    ensures
        s@ == seconds_f64_text(secs, nanos, precision),
{
    format!("{:.precision$}", Duration::new(secs, nanos).as_secs_f64(), precision = precision)
}

impl TimeFormat {
    /// A fractional format asks for no more than `MAX_PRECISION` digits.
    pub open spec fn valid(self) -> bool {
        match self {
            TimeFormat::SecondsF32(precision) => precision <= MAX_PRECISION,
            TimeFormat::SecondsF64(precision) => precision <= MAX_PRECISION,
            _ => true,
        }
    }

    /// The number that stands for `elapsed` in this format.
    pub open spec fn value_text(self, elapsed: Elapsed) -> Seq<char> {
        match self {
            TimeFormat::Seconds => decimal_text(elapsed.secs as nat),
            TimeFormat::SecondsF32(precision) => seconds_f32_text(
                elapsed.secs,
                elapsed.nanos,
                precision,
            ),
            TimeFormat::SecondsF64(precision) => seconds_f64_text(
                elapsed.secs,
                elapsed.nanos,
                precision,
            ),
            TimeFormat::Milliseconds => decimal_text(elapsed.total_millis()),
            TimeFormat::Microseconds => decimal_text(elapsed.total_micros()),
            TimeFormat::Nanoseconds => decimal_text(elapsed.total_nanos()),
        }
    }

    /// The suffix that names this format's unit. The three seconds formats
    /// always carry theirs; the sub-second formats carry one only when
    /// `unit_suffix` is set.
    pub open spec fn unit_text(self, unit_suffix: bool) -> Seq<char> {
        match self {
            TimeFormat::Seconds => "secs"@,
            TimeFormat::SecondsF32(_) => "secs"@,
            TimeFormat::SecondsF64(_) => "secs"@,
            TimeFormat::Milliseconds => if unit_suffix { "ms"@ } else { Seq::empty() },
            TimeFormat::Microseconds => if unit_suffix { "μs"@ } else { Seq::empty() },
            TimeFormat::Nanoseconds => if unit_suffix { "ns"@ } else { Seq::empty() },
        }
    }

    /// Whether this format can be rendered.
    pub fn is_valid(&self) -> (b: bool)
        ensures
            b == self.valid(),
    {
        match *self {
            TimeFormat::SecondsF32(precision) => precision <= MAX_PRECISION,
            TimeFormat::SecondsF64(precision) => precision <= MAX_PRECISION,
            _ => true,
        }
    }

    /// Renders the number that stands for `elapsed` in this format.
    pub fn value(&self, elapsed: Elapsed) -> (s: String)
        requires
            self.valid(),
            elapsed.wf(),
        ensures
            s@ == self.value_text(elapsed),
    {
        match *self {
            TimeFormat::Seconds => decimal_string(elapsed.as_secs() as u128),
            TimeFormat::SecondsF32(precision) => seconds_f32_string(
                elapsed.secs,
                elapsed.nanos,
                precision,
            ),
            TimeFormat::SecondsF64(precision) => seconds_f64_string(
                elapsed.secs,
                elapsed.nanos,
                precision,
            ),
            TimeFormat::Milliseconds => decimal_string(elapsed.as_millis()),
            TimeFormat::Microseconds => decimal_string(elapsed.as_micros()),
            TimeFormat::Nanoseconds => decimal_string(elapsed.as_nanos()),
        }
    }

    /// The suffix that names this format's unit.
    pub fn unit(&self, unit_suffix: bool) -> (s: &'static str)
        ensures
            s@ == self.unit_text(unit_suffix),
    {
        proof {
            reveal_strlit("");
        }
        match *self {
            TimeFormat::Seconds => "secs",
            TimeFormat::SecondsF32(_) => "secs",
            TimeFormat::SecondsF64(_) => "secs",
            TimeFormat::Milliseconds => if unit_suffix { "ms" } else { "" },
            TimeFormat::Microseconds => if unit_suffix { "μs" } else { "" },
            TimeFormat::Nanoseconds => if unit_suffix { "ns" } else { "" },
        }
    }
}

/// The line that reports `value` and `unit` under `label`.
pub open spec fn line_text(label: Seq<char>, value: Seq<char>, unit: Seq<char>) -> Seq<char> {
    "Label: "@ + label + " | Time: "@ + value + unit
}

/// Writes the line that reports `value` and `unit` under `label`.
pub fn compose_line(label: &str, value: &str, unit: &str) -> (line: String)
    ensures
        line@ == line_text(label@, value@, unit@),
{
    let mut line = String::from_str("Label: ");
    line.append(label);
    line.append(" | Time: ");
    line.append(value);
    line.append(unit);
    line
}

} // verus!
