//! Verbosity of the log that goes to standard error.
use vstd::prelude::*;

verus! {

/// How much is logged, from errors only up to everything.
#[derive(Clone, Copy, Debug, PartialEq, Eq, Structural)]
pub enum LogLevel {
    Error,
    Warn,
    Info,
    Debug,
    Trace,
}

/// The level for a number of the boundary: `0` to `3` in rising order, and the most
/// talkative one for every larger number.
pub open spec fn level_of(level: u32) -> LogLevel {
    if level == 0 {
        LogLevel::Error
    } else if level == 1 {
        LogLevel::Warn
    } else if level == 2 {
        LogLevel::Info
    } else if level == 3 {
        LogLevel::Debug
    } else {
        LogLevel::Trace
    }
}

/// The level for a number of the boundary.
pub fn log_level(level: u32) -> (out: LogLevel)
    ensures
        out == level_of(level),
{
    match level {
        0 => LogLevel::Error,
        1 => LogLevel::Warn,
        2 => LogLevel::Info,
        3 => LogLevel::Debug,
        _ => LogLevel::Trace,
    }
}

} // verus!
