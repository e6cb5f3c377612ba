//! The diagnostics model: log records as plain values, and the controller
//! that holds the active verbosity.  The surrounding program owns the
//! actual sinks; swapping their configuration is driven by the level kept
//! here, so verbosity switching is decided by verified code.

use vstd::prelude::*;

verus! {

/// Severity of one log record.
#[derive(Clone, Copy, PartialEq, Eq, Debug, Structural)]
pub enum LogLevel {
    Error,
    Warn,
    Info,
    Debug,
}

/// Effective diagnostic verbosity of the active configuration.
#[derive(Clone, Copy, PartialEq, Eq, Debug, Structural)]
pub enum VerbosityLevel {
    Info,
    Debug,
}

/// One record handed to the logging sinks.
pub struct LogRecord {
    pub level: LogLevel,
    pub message: String,
}

/// The mathematical value of a `LogRecord`.
pub struct LogRecordV {
    pub level: LogLevel,
    pub message: Seq<char>,
}

impl View for LogRecord {
    type V = LogRecordV;

    open spec fn view(&self) -> LogRecordV {
        LogRecordV { level: self.level, message: self.message@ }
    }
}

impl DeepView for LogRecord {
    type V = LogRecordV;

    open spec fn deep_view(&self) -> LogRecordV {
        self.view()
    }
}

/// Whether a configuration at verbosity `v` lets a record of severity `l`
/// through: everything but debug records always passes.
pub open spec fn spec_admits(v: VerbosityLevel, l: LogLevel) -> bool {
    match l {
        LogLevel::Debug => v is Debug,
        _ => true,
    }
}

/// Holds the active verbosity.  Stands for the swappable logging
/// configuration: replacing the level replaces the whole configuration at
/// once, with the sinks themselves unchanged.
pub struct DiagnosticsController {
    pub level: VerbosityLevel,
}

impl DiagnosticsController {
    /// A controller at the informational level, where the program starts.
    pub fn new() -> (r: DiagnosticsController)
        ensures
            r.level == VerbosityLevel::Info,
    {
        DiagnosticsController { level: VerbosityLevel::Info }
    }

    /// Replaces the active verbosity.  Calling it again with the same
    /// level leaves the configuration as it was.
    pub fn set_level(&mut self, level: VerbosityLevel)
        ensures
            final(self).level == level,
    {
        self.level = level;
    }

    /// Whether the active configuration admits a record of severity `l`.
    pub fn admits(&self, l: LogLevel) -> (r: bool)
        ensures
            r == spec_admits(self.level, l),
    {
        match l {
            LogLevel::Debug => match self.level {
                VerbosityLevel::Debug => true,
                VerbosityLevel::Info => false,
            },
            _ => true,
        }
    }
}

} // verus!
