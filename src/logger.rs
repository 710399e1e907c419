use vstd::prelude::*;

verus! {

/// Severity of a log record, most severe first.
#[derive(Clone, Copy, Debug, PartialEq, Eq, Structural)]
pub enum Level {
    Error,
    Warn,
    Info,
    Debug,
    Trace,
}

/// The most verbose level let through, or `Off`.
#[derive(Clone, Copy, Debug, PartialEq, Eq, Structural)]
pub enum LevelFilter {
    Off,
    Error,
    Warn,
    Info,
    Debug,
    Trace,
}

/// The host console channel a record is written to.
#[derive(Clone, Copy, Debug, PartialEq, Eq, Structural)]
pub enum ConsoleChannel {
    Error,
    Warning,
    Info,
    Debug,
}

/// Logging settings of a module.
#[derive(Clone, Copy, Debug, PartialEq, Eq, Structural)]
pub struct LoggerConfig {
    pub module_log_level: Option<LevelFilter>,
}

/// Forwards log records of level `Info` and more severe to the host console.
#[derive(Clone, Copy, Debug, PartialEq, Eq, Structural)]
pub struct Logger;

/// Whether a record of `level` reaches the console.
pub open spec fn forwards(level: Level) -> bool {
    level == Level::Error || level == Level::Warn || level == Level::Info
}

impl Logger {
    /// Whether records of `level` are forwarded.
    pub fn enabled(&self, level: Level) -> (r: bool)
        ensures
            r == forwards(level),
    {
        match level {
            Level::Error | Level::Warn | Level::Info => true,
            Level::Debug | Level::Trace => false,
        }
    }

    /// The console channel a record of `level` goes to, or `None` when it is
    /// dropped.
    pub fn channel(&self, level: Level) -> (r: Option<ConsoleChannel>)
        ensures
            r is Some <==> forwards(level),
            level == Level::Error ==> r == Some(ConsoleChannel::Error),
            level == Level::Warn ==> r == Some(ConsoleChannel::Warning),
            level == Level::Info ==> r == Some(ConsoleChannel::Info),
    {
        match level {
            Level::Error => Some(ConsoleChannel::Error),
            Level::Warn => Some(ConsoleChannel::Warning),
            Level::Info => Some(ConsoleChannel::Info),
            Level::Debug | Level::Trace => None,
        }
    }
}

} // verus!
