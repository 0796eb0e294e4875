//! Routing of the messages that the Vulkan debug messenger reports.
use vstd::prelude::*;
use crate::vkfacts::{severity_error_bits, severity_info_bits, severity_warning_bits};

verus! {

/// The log level at which a debug message is written.
#[derive(Debug, Clone, Copy, PartialEq, Eq)]
pub enum LogLevel {
    Error,
    Warn,
    Debug,
    Trace,
}

/// The level for a message of severity flags `severity`: error from the
/// `ERROR` bit (0x1000) up, warning from `WARNING` (0x100) up, debug from
/// `INFO` (0x10) up, trace below. The flags compare by their bits, as the
/// flag type's derived ordering does.
pub open spec fn spec_log_level(severity: u32) -> LogLevel {
    if severity >= 0x1000 {
        LogLevel::Error
    } else if severity >= 0x100 {
        LogLevel::Warn
    } else if severity >= 0x10 {
        LogLevel::Debug
    } else {
        LogLevel::Trace
    }
}

/// Chooses the log level of a debug message from its severity flags.
pub fn log_level_for_severity(severity: u32) -> (l: LogLevel)
    ensures
        l == spec_log_level(severity),
{
    if severity >= severity_error_bits() {
        LogLevel::Error
    } else if severity >= severity_warning_bits() {
        LogLevel::Warn
    } else if severity >= severity_info_bits() {
        LogLevel::Debug
    } else {
        LogLevel::Trace
    }
}

/// How severe a level is: error 3, warning 2, debug 1, trace 0.
pub open spec fn level_rank(l: LogLevel) -> int {
    match l {
        LogLevel::Error => 3,
        LogLevel::Warn => 2,
        LogLevel::Debug => 1,
        LogLevel::Trace => 0,
    }
}

/// A more severe message is never logged at a less severe level, and each
/// severity flag alone is logged at its own level: `ERROR` as an error,
/// `WARNING` as a warning, `INFO` at debug level and `VERBOSE` as trace.
pub proof fn lemma_log_level_order(a: u32, b: u32)
    ensures
        a <= b ==> level_rank(spec_log_level(a)) <= level_rank(spec_log_level(b)),
        spec_log_level(0x1000) == LogLevel::Error,
        spec_log_level(0x100) == LogLevel::Warn,
        spec_log_level(0x10) == LogLevel::Debug,
        spec_log_level(0x1) == LogLevel::Trace,
        (spec_log_level(a) == LogLevel::Error) <==> a >= 0x1000,
        (spec_log_level(a) == LogLevel::Trace) <==> a < 0x10,
{
}

} // verus!
