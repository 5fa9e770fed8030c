//! How loud the logging is, chosen by how often the verbosity flag was given.

use vstd::prelude::*;

verus! {

/// The most detailed kind of message that is still logged.
#[derive(Debug, Clone, Copy, PartialEq, Eq, Structural)]
pub enum LogLevel {
    /// Nothing is logged.
    Off,
    /// Errors only.
    Error,
    /// Warnings and errors.
    Warn,
    /// Informational messages and what is graver.
    Info,
    /// Debugging messages and what is graver.
    Debug,
    /// Everything.
    Trace,
}

/// The level that a count of verbosity flags asks for: each flag opens one
/// more level, from `Off` for none up to `Debug` for four. Every other count,
/// a negative one too, asks for `Trace`.
pub open spec fn spec_log_level(verbosity: i8) -> LogLevel {
    if verbosity == 0 {
        LogLevel::Off
    } else if verbosity == 1 {
        LogLevel::Error
    } else if verbosity == 2 {
        LogLevel::Warn
    } else if verbosity == 3 {
        LogLevel::Info
    } else if verbosity == 4 {
        LogLevel::Debug
    } else {
        LogLevel::Trace
    }
}

/// Returns the level that `verbosity` flags ask for.
#[verifier::when_used_as_spec(spec_log_level)]
pub fn log_level(verbosity: i8) -> (level: LogLevel)
    ensures
        level == spec_log_level(verbosity),
{
    match verbosity {
        0 => LogLevel::Off,
        1 => LogLevel::Error,
        2 => LogLevel::Warn,
        3 => LogLevel::Info,
        4 => LogLevel::Debug,
        _ => LogLevel::Trace,
    }
}

} // verus!
