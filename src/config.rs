//! Settings fixed when a runtime context is created.

use vstd::prelude::*;

verus! {

/// How much the runtime logs, from nothing to everything.
#[derive(Clone, Copy, Debug, PartialEq, Eq, Hash, PartialOrd, Ord, Structural)]
pub enum LogLevel {
    Suppressed,
    Info,
    Warn,
    Error,
    Debug,
}

/// The level a host passes as a number: 1 info, 2 warn, 3 error, 4 debug, and
/// anything else suppressed.
pub open spec fn level_of(code: u32) -> LogLevel {
    if code == 1 {
        LogLevel::Info
    } else if code == 2 {
        LogLevel::Warn
    } else if code == 3 {
        LogLevel::Error
    } else if code == 4 {
        LogLevel::Debug
    } else {
        LogLevel::Suppressed
    }
}

impl LogLevel {
    /// The level for a host's numeric code.
    pub fn from_code(code: u32) -> (r: LogLevel)
        ensures
            r == level_of(code),
    {
        match code {
            1 => LogLevel::Info,
            2 => LogLevel::Warn,
            3 => LogLevel::Error,
            4 => LogLevel::Debug,
            _ => LogLevel::Suppressed,
        }
    }
}

/// What a runtime context is created with.
#[derive(Clone, Copy, Debug, PartialEq, Eq, Hash, Structural)]
pub struct Config {
    /// Whether a microtask queue (promise jobs) is installed.
    pub microtask_queue: bool,
    /// Whether a macrotask queue (timers) is installed.
    pub macrotask_queue: bool,
    /// Whether direct, non-module script evaluation is permitted.
    pub script: bool,
    /// Whether superset-dialect sources are transformed before compiling.
    pub typescript: bool,
    pub log_level: LogLevel,
}

impl Config {
    /// The configuration for the switches a host passes, with its numeric log
    /// level read as [`LogLevel::from_code`] reads it.
    pub fn new(microtask_queue: bool, macrotask_queue: bool, script: bool, typescript: bool, log_level: u32) -> (r: Config)
        ensures
            r == (Config {
                microtask_queue,
                macrotask_queue,
                script,
                typescript,
                log_level: level_of(log_level),
            }),
    {
        Config { microtask_queue, macrotask_queue, script, typescript, log_level: LogLevel::from_code(log_level) }
    }
}

} // verus!
