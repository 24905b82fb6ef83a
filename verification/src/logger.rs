//! The library's logging policy.
//!
//! The stream and session actors report anomalies through the process-wide
//! logging facade. The sink that formats and prints records lives with the
//! embedding process; this module holds the policy half — every level is
//! enabled, up to the debug ceiling — and raises the facade's global level
//! ceiling accordingly.

use vstd::prelude::*;

verus! {

/// Severity of a log record, most severe first.
#[derive(Clone, Copy, Debug, PartialEq, Eq, Structural)]
pub enum LogLevel {
    Error,
    Warn,
    Info,
    Debug,
    Trace,
}

/// Relies on log::set_max_level: raises the logging facade's global level
/// ceiling so records up to debug level reach the installed sink.
#[verifier::external_body]
fn set_global_max_level_debug() {
    log::set_max_level(log::LevelFilter::Debug);
}

/// The plain logger this library logs through.
pub struct SimpleLogger;

impl SimpleLogger {
    /// The level ceiling the logger runs at.
    pub fn max_level() -> (r: LogLevel)
        ensures
            r is Debug,
    {
        LogLevel::Debug
    }

    /// Whether a record is logged at all: every record is; the ceiling
    /// alone filters.
    pub fn enabled(_level: LogLevel) -> (r: bool)
        ensures
            r,
    {
        true
    }

    /// Publishes the logger's ceiling to the process-wide facade.
    pub fn init() {
        set_global_max_level_debug()
    }
}

/// Installs this library's logging policy.
pub fn init_logger() {
    SimpleLogger::init()
}

} // verus!
