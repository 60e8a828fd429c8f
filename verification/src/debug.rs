//! The level at which a message of the validation layers is logged.
use vstd::prelude::*;
use crate::vulkan::{
    severity_error, severity_info, severity_warning, SEVERITY_ERROR, SEVERITY_INFO,
    SEVERITY_WARNING,
};

verus! {

/// A log level.
#[derive(Clone, Copy, Debug, PartialEq, Eq, Structural)]
pub enum LogLevel {
    Error,
    Warn,
    Debug,
    Trace,
}

/// The level of a message whose severity flags have the given bits: error
/// from the error bit up, warning from the warning bit up, debug from the
/// info bit up, trace below (severity flags compare as their bits do).
pub open spec fn severity_level(severity: u32) -> LogLevel {
    if severity >= SEVERITY_ERROR {
        LogLevel::Error
    } else if severity >= SEVERITY_WARNING {
        LogLevel::Warn
    } else if severity >= SEVERITY_INFO {
        LogLevel::Debug
    } else {
        LogLevel::Trace
    }
}

/// How urgent a level is: trace 0, debug 1, warning 2, error 3.
pub open spec fn urgency(level: LogLevel) -> int {
    match level {
        LogLevel::Error => 3,
        LogLevel::Warn => 2,
        LogLevel::Debug => 1,
        LogLevel::Trace => 0,
    }
}

/// Chooses the level at which a validation message is logged from the bits
/// of its `vk::DebugUtilsMessageSeverityFlagsEXT`.
pub fn message_level(severity: u32) -> (r: LogLevel)
    ensures
        r == severity_level(severity),
{
    if severity >= severity_error() {
        LogLevel::Error
    } else if severity >= severity_warning() {
        LogLevel::Warn
    } else if severity >= severity_info() {
        LogLevel::Debug
    } else {
        LogLevel::Trace
    }
}

} // verus!
