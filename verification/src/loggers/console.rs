//! The console format: one readable line for each record.

use crate::record::{LogRecord, LogRecordView};
use crate::utils::{decimal, format_level, format_timestamp, level_text};
use vstd::prelude::*;
use vstd::string::StringExecFns;

verus! {

/// The console line of a record: the timestamp in square brackets, the level,
/// a colon and the message as it stands. Fields and request id are left out.
pub open spec fn console_line(record: LogRecordView) -> Seq<char> {
    "["@ + decimal(record.timestamp as nat) + "] "@ + level_text(record.level) + ": "@
        + record.message
}

/// Adapter: simple console format for development.
#[derive(Debug, Clone, Copy)]
pub struct ConsoleLogger;

impl ConsoleLogger {
    /// Create a new console logger.
    pub fn new() -> (r: ConsoleLogger)
        ensures
            r == ConsoleLogger,
    {
        ConsoleLogger
    }

    /// The line that stands for the record on the console, without a line
    /// break.
    pub fn render(&self, record: &LogRecord) -> (r: String)
        ensures
            r@ == console_line(record@),
    {
        let mut line = String::from_str("[");
        line.append(format_timestamp(record.timestamp()).as_str());
        line.append("] ");
        line.append(format_level(record.level()));
        line.append(": ");
        line.append(record.message());
        line
    }
}

impl Default for ConsoleLogger {
    fn default() -> (r: ConsoleLogger)
        ensures
            r == ConsoleLogger,
    {
        ConsoleLogger::new()
    }
}

} // verus!
