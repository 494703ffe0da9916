//! The debug reporter's decisions: which severities and categories a
//! debug messenger registers for, and how a delivered message's severity
//! and category map to a log level and a label. The embedding program
//! registers the native callback with exactly this configuration and
//! routes each message through these mappings to its log sink.

use vstd::prelude::*;

verus! {

/// The `VERBOSE` severity bit of the debug-utilities messenger.
pub const SEVERITY_VERBOSE: u32 = 0x1;

/// The `INFO` severity bit of the debug-utilities messenger.
pub const SEVERITY_INFO: u32 = 0x10;

/// The `WARNING` severity bit of the debug-utilities messenger.
pub const SEVERITY_WARNING: u32 = 0x100;

/// The `ERROR` severity bit of the debug-utilities messenger.
pub const SEVERITY_ERROR: u32 = 0x1000;

/// The `GENERAL` message-category bit of the debug-utilities messenger.
pub const TYPE_GENERAL: u32 = 0x1;

/// The `VALIDATION` message-category bit of the debug-utilities
/// messenger.
pub const TYPE_VALIDATION: u32 = 0x2;

/// The `PERFORMANCE` message-category bit of the debug-utilities
/// messenger.
pub const TYPE_PERFORMANCE: u32 = 0x4;

/// What a debug messenger is registered for: a severity mask and a
/// message-category mask.
#[derive(Debug, Clone, Copy, PartialEq, Eq, Structural)]
pub struct DebugMessengerConfig {
    pub message_severity: u32,
    pub message_type: u32,
}

/// The level a forwarded message is logged at.
#[derive(Debug, Clone, Copy, PartialEq, Eq, Structural)]
pub enum LogLevel {
    Error,
    Warn,
    Debug,
    Trace,
}

/// The registration a context's debug messenger uses: warnings and
/// errors only, across the general, validation and performance
/// categories.
pub fn debug_messenger_config() -> (r: DebugMessengerConfig)
    ensures
        r.message_severity == SEVERITY_WARNING | SEVERITY_ERROR,
        r.message_type == TYPE_GENERAL | TYPE_VALIDATION | TYPE_PERFORMANCE,
{
    DebugMessengerConfig {
        message_severity: SEVERITY_WARNING | SEVERITY_ERROR,
        message_type: TYPE_GENERAL | TYPE_VALIDATION | TYPE_PERFORMANCE,
    }
}

/// The log level a message of the given severity is forwarded at:
/// errors as errors, warnings as warnings, informational messages at
/// debug level, anything else at trace level.
pub fn debug_message_level(severity: u32) -> (r: LogLevel)
    ensures
        severity == SEVERITY_ERROR ==> r == LogLevel::Error,
        severity == SEVERITY_WARNING ==> r == LogLevel::Warn,
        severity == SEVERITY_INFO ==> r == LogLevel::Debug,
        severity != SEVERITY_ERROR && severity != SEVERITY_WARNING && severity != SEVERITY_INFO
            ==> r == LogLevel::Trace,
{
    if severity == SEVERITY_ERROR {
        LogLevel::Error
    } else if severity == SEVERITY_WARNING {
        LogLevel::Warn
    } else if severity == SEVERITY_INFO {
        LogLevel::Debug
    } else {
        LogLevel::Trace
    }
}

/// The label a message of the given category is tagged with.
pub fn debug_message_type_label(message_type: u32) -> (r: String)
    ensures
        message_type == TYPE_GENERAL ==> r@ == "General"@,
        message_type == TYPE_PERFORMANCE ==> r@ == "Performance"@,
        message_type == TYPE_VALIDATION ==> r@ == "Validation"@,
        message_type != TYPE_GENERAL && message_type != TYPE_PERFORMANCE && message_type
            != TYPE_VALIDATION ==> r@ == "Unknown"@,
{
    if message_type == TYPE_GENERAL {
        "General".to_owned()
    } else if message_type == TYPE_PERFORMANCE {
        "Performance".to_owned()
    } else if message_type == TYPE_VALIDATION {
        "Validation".to_owned()
    } else {
        "Unknown".to_owned()
    }
}

} // verus!
