//! What the two log sinks decide: which records they take and how a record
//! is handed on. The sinks themselves, which write, live outside this crate.

use vstd::prelude::*;
use vstd::string::StringExecFns;

verus! {

/// The severity of a log record, most severe first.
#[derive(Debug, Clone, Copy, PartialEq, Eq, Structural)]
pub enum LogLevel {
    /// An error.
    Error,
    /// A warning.
    Warn,
    /// An information.
    Info,
    /// A debugging note.
    Debug,
    /// A trace.
    Trace,
}

impl LogLevel {
    /// The rank of the level: 1 for errors up to 5 for traces.
    pub open spec fn rank(self) -> int {
        match self {
            LogLevel::Error => 1,
            LogLevel::Warn => 2,
            LogLevel::Info => 3,
            LogLevel::Debug => 4,
            LogLevel::Trace => 5,
        }
    }

    /// Computes the rank of the level.
    pub fn rank_of(self) -> (rank: u8)
        ensures
            rank == self.rank(),
    {
        match self {
            LogLevel::Error => 1,
            LogLevel::Warn => 2,
            LogLevel::Info => 3,
            LogLevel::Debug => 4,
            LogLevel::Trace => 5,
        }
    }
}

/// The sink that hands records to the device's own log tool.
#[derive(Debug, Clone, Copy, PartialEq, Eq, Structural)]
pub struct QnapLogger;

impl QnapLogger {
    /// The severity code of the log tool: 2 for errors, 1 for warnings, 0 for the rest.
    pub open spec fn code_of(level: LogLevel) -> Seq<char> {
        match level {
            LogLevel::Error => "2"@,
            LogLevel::Warn => "1"@,
            _ => "0"@,
        }
    }

    /// The prefix that marks every message of the server.
    pub open spec fn prefix() -> Seq<char> {
        "[NAS Boot Server] "@
    }

    /// This sink takes every record.
    pub fn enabled(&self, level: LogLevel) -> (taken: bool)
        ensures
            taken,
    {
        true
    }

    /// The severity code that the log tool is given for a level.
    pub fn level_code(&self, level: LogLevel) -> (code: &'static str)
        ensures
            code@ == Self::code_of(level),
    {
        match level {
            LogLevel::Error => "2",
            LogLevel::Warn => "1",
            _ => "0",
        }
    }

    /// The message that the log tool is given for a record's text.
    pub fn message(&self, text: &str) -> (message: String)
        ensures
            message@ == Self::prefix() + text@,
    {
        let mut message = String::from_str("[NAS Boot Server] ");
        message.append(text);
        message
    }
}

/// The kind under which the system's event log files a record.
#[derive(Debug, Clone, Copy, PartialEq, Eq, Structural)]
pub enum EventKind {
    /// An error event.
    Error,
    /// A warning event.
    Warning,
    /// An information event.
    Information,
    /// A success event.
    Success,
}

/// The sink that writes to the system's event log.
#[derive(Debug, Clone, Copy, PartialEq, Eq, Structural)]
pub struct EventLogger;

impl EventLogger {
    /// The event kind of a level: debugging notes and traces are filed as successes.
    pub open spec fn kind_of(level: LogLevel) -> EventKind {
        match level {
            LogLevel::Error => EventKind::Error,
            LogLevel::Warn => EventKind::Warning,
            LogLevel::Info => EventKind::Information,
            LogLevel::Debug => EventKind::Success,
            LogLevel::Trace => EventKind::Success,
        }
    }

    /// The service-specific exit code that a record sets: 1 for an error, 2
    /// for a warning, none for the rest.
    pub open spec fn exit_code_of(level: LogLevel) -> Option<u32> {
        match level {
            LogLevel::Error => Some(1u32),
            LogLevel::Warn => Some(2u32),
            _ => None,
        }
    }

    /// A record is taken when its level is at most the most verbose level
    /// that is switched on; with logging switched off none is.
    pub fn enabled(&self, level: LogLevel, max_level: Option<LogLevel>) -> (taken: bool)
        ensures
            taken == (max_level is Some && level.rank() <= max_level->Some_0.rank()),
    {
        match max_level {
            Some(max_level) => level.rank_of() <= max_level.rank_of(),
            None => false,
        }
    }

    /// The kind under which a record of this level is filed.
    pub fn event_kind(&self, level: LogLevel) -> (kind: EventKind)
        ensures
            kind == Self::kind_of(level),
    {
        match level {
            LogLevel::Error => EventKind::Error,
            LogLevel::Warn => EventKind::Warning,
            LogLevel::Info => EventKind::Information,
            LogLevel::Debug => EventKind::Success,
            LogLevel::Trace => EventKind::Success,
        }
    }

    /// The exit code that the service status is updated with, if the record calls for it.
    pub fn exit_code(&self, level: LogLevel) -> (code: Option<u32>)
        ensures
            code == Self::exit_code_of(level),
    {
        match level {
            LogLevel::Error => Some(1),
            LogLevel::Warn => Some(2),
            _ => None,
        }
    }
}

} // verus!
