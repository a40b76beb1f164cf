//! Structured logging: a record type, a logging interface, a console and a JSON
//! line format, environment-aware configuration and request correlation ids.
//!
//! Everything here computes; nothing here prints. A logger renders a record to
//! the text of one line, and the program around the library sends that line
//! where it belongs.

pub mod config;
pub mod level;
pub mod loggers;
pub mod outside;
pub mod record;
pub mod utils;

pub use config::{ConfigError, Environment, EnvVars, LoggingConfig};
pub use level::LogLevel;
pub use loggers::{ConsoleLogger, JsonLogger, Logger};
pub use record::LogRecord;
pub use utils::{format_level, format_timestamp, generate_request_id};
