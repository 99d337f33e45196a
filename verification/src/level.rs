//! Severities of the logging facility, and the two places a line can go.

use vstd::prelude::*;

verus! {

/// A severity of the logging facility.
#[derive(Clone, Copy, Debug, PartialEq, Eq)]
pub enum LogLevel {
    Error,
    Warning,
    Info,
    Trace,
    Debug,
}

/// Where a rendered line is to be written. A line has exactly one sink.
#[derive(Clone, Copy, Debug, PartialEq, Eq)]
pub enum Sink {
    /// Standard output, as one line.
    Stdout,
    /// The logging facility, as one record of the given severity.
    Logger(LogLevel),
}

impl Sink {
    /// The sink that a timer's log level selects: standard output when no
    /// level is set, the logging facility at that level otherwise.
    pub open spec fn of(log_level: Option<LogLevel>) -> Sink {
        match log_level {
            None => Sink::Stdout,
            Some(level) => Sink::Logger(level),
        }
    }

    /// Selects the sink for a timer's log level.
    pub fn select(log_level: Option<LogLevel>) -> (sink: Sink)
        ensures
            sink == Sink::of(log_level),
    {
        match log_level {
            None => Sink::Stdout,
            Some(level) => Sink::Logger(level),
        }
    }
}

} // verus!
