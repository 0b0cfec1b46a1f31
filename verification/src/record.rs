//! Log records: what the library asks its driver to write to the log sink.

use vstd::prelude::*;
use vstd::string::*;

verus! {

/// Severity of a log record.
#[derive(Clone, Copy, Debug, PartialEq, Eq, Structural)]
pub enum LogLevel {
    Info,
    Error,
}

/// One line for the log sink: a level and a message.
#[derive(Debug, PartialEq, Eq)]
pub struct LogRecord {
    pub level: LogLevel,
    pub message: String,
}

/// The mathematical content of a [`LogRecord`].
pub ghost struct LogEntry {
    pub level: LogLevel,
    pub message: Seq<char>,
}

impl View for LogRecord {
    type V = LogEntry;

    open spec fn view(&self) -> LogEntry {
        LogEntry { level: self.level, message: self.message@ }
    }
}

/// The entry of level `Info` with the given message.
pub open spec fn info_entry(message: Seq<char>) -> LogEntry {
    LogEntry { level: LogLevel::Info, message }
}

/// The entry of level `Error` with the given message.
pub open spec fn error_entry(message: Seq<char>) -> LogEntry {
    LogEntry { level: LogLevel::Error, message }
}

/// The entries of a sequence of records, in order.
pub open spec fn entries(records: Seq<LogRecord>) -> Seq<LogEntry> {
    records.map_values(|r: LogRecord| r@)
}

/// The entry of an optional record.
pub open spec fn entry_of(record: Option<LogRecord>) -> Option<LogEntry> {
    match record {
        Some(r) => Some(r@),
        None => None,
    }
}

impl LogRecord {
    /// A record of level `Info`.
    pub fn info(message: String) -> (r: LogRecord)
        ensures
            r@ == info_entry(message@),
    {
        LogRecord { level: LogLevel::Info, message }
    }

    /// A record of level `Error`.
    pub fn error(message: String) -> (r: LogRecord)
        ensures
            r@ == error_entry(message@),
    {
        LogRecord { level: LogLevel::Error, message }
    }

    /// Whether this record reports a failure.
    pub fn is_error(&self) -> (b: bool)
        ensures
            b == (self@.level == LogLevel::Error),
    {
        match self.level {
            LogLevel::Error => true,
            LogLevel::Info => false,
        }
    }
}

/// A message made of a fixed prefix followed by a detail.
pub fn prefixed(prefix: &str, detail: &str) -> (s: String)
    ensures
        s@ == prefix@ + detail@,
{
    let mut s = String::from_str(prefix);
    s.append(detail);
    s
}

} // verus!
