//! Command-line settings: what the parsed flags mean.

use vstd::prelude::*;

verus! {

/// How much diagnostic output to log.
#[derive(Debug, Clone, Copy, PartialEq, Eq, Structural)]
pub enum LogLevel {
    Off,
    Error,
    Warn,
    Info,
    Debug,
    Trace,
}

/// The settings that the command line selects.
#[derive(Debug, Clone, Copy)]
pub struct Args {
    /// Print test output for debugging, verifying, tracing and the like.
    pub test: bool,
    /// Verbosity of the log.
    pub log_level: LogLevel,
}

/// The level that a count of verbosity flags selects: none, error, warn,
/// info, debug, trace for 0 to 5; more flags stay at trace.
pub open spec fn log_level_of(count: u8) -> LogLevel {
    if count == 0 {
        LogLevel::Off
    } else if count == 1 {
        LogLevel::Error
    } else if count == 2 {
        LogLevel::Warn
    } else if count == 3 {
        LogLevel::Info
    } else if count == 4 {
        LogLevel::Debug
    } else {
        LogLevel::Trace
    }
}

/// Maps a count of verbosity flags to a log level.
pub fn u8_to_log_level(count: u8) -> (r: LogLevel)
    ensures
        r == log_level_of(count),
{
    match count {
        0 => LogLevel::Off,
        1 => LogLevel::Error,
        2 => LogLevel::Warn,
        3 => LogLevel::Info,
        4 => LogLevel::Debug,
        _ => LogLevel::Trace,
    }
}

/// Builds the settings from the parsed flags: whether the test flag was
/// given and how many times the verbose flag was given.
pub fn clap(test: bool, verbose: u8) -> (r: Args)
    ensures
        r.test == test,
        r.log_level == log_level_of(verbose),
{
    Args { test, log_level: u8_to_log_level(verbose) }
}

} // verus!
