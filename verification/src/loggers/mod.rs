//! The logging interface and the two line formats.

pub mod console;
pub mod json;

pub use console::ConsoleLogger;
pub use json::JsonLogger;

use crate::record::LogRecord;
use vstd::prelude::*;

verus! {

/// The logging interface that every logger implements.
///
/// The two formats of this library render a record to the text of a line and
/// leave the writing to the program; a logger is whatever sends a record on:
/// to standard output, to memory, or to another logger that it filters for.
pub trait Logger {
    /// Log a record to the output destination.
    fn log(&self, record: &LogRecord);
}

} // verus!
