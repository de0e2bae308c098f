//! A small logger, split into a verified core and the I/O that surrounds it.
//!
//! This crate is the core. It fixes the canonical names of the severities,
//! the path a logger writes to, the exact text of every record, and whether
//! the process has to end once a record has been written. It performs no I/O
//! itself: a caller writes the text this crate hands out to standard output
//! and to the log file, in that order, and then acts on the verdict.

pub mod levels;
pub mod logger;
pub mod record;

pub use levels::LogLevel;
pub use logger::{LogAction, Logger, LoggerView};
pub use record::format_record;
