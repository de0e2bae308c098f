//! The logger: where it writes, and what one logging call amounts to.

use vstd::prelude::*;
use crate::levels::LogLevel;
use crate::record::{format_record, record_line};

verus! {

/// The name of the log file that stands in for an empty path.
pub open spec fn default_log_file() -> Seq<char> {
    "default.log"@
}

/// The path a logger writes to when it is asked for `path`.
pub open spec fn resolved_log_file(path: Seq<char>) -> Seq<char> {
    if path.len() == 0 {
        default_log_file()
    } else {
        path
    }
}

/// Whether the process has to end once a record at `level` has been written.
pub open spec fn terminates_after(level: LogLevel, terminate_on_error: bool) -> bool {
    level == LogLevel::Error && terminate_on_error
}

/// A logger as a mathematical value.
pub struct LoggerView {
    /// The path of the log file.
    pub log_file: Seq<char>,
    /// Whether a record at the error level ends the process.
    pub terminate_on_error: bool,
}

/// A logging destination: the path of a log file and a termination policy.
///
/// A logger is a plain configuration value. It holds no open file, is never
/// changed after construction, and its path is never empty.
#[derive(Debug)]
pub struct Logger {
    log_file: String,
    terminate_on_error: bool,
}

/// What one logging call asks of the code that performs the I/O.
///
/// The steps are to be taken in this order: write `line` to standard output;
/// append `line` to the file at `path`, which must already exist, and flush
/// it; then, if `terminate` is set, end the process abnormally.
#[derive(Debug, PartialEq, Eq)]
pub struct LogAction {
    /// The path of the file to append to.
    pub path: String,
    /// The text to write to both destinations.
    pub line: String,
    /// Whether the process ends once both writes are done.
    pub terminate: bool,
}

impl View for Logger {
    type V = LoggerView;

    closed spec fn view(&self) -> LoggerView {
        LoggerView { log_file: self.log_file@, terminate_on_error: self.terminate_on_error }
    }
}

impl Logger {
    #[verifier::type_invariant]
    spec fn path_is_set(&self) -> bool {
        self.log_file@.len() > 0
    }

    /// Makes a logger for the file at `log_file_path`, or at `default.log`
    /// when that path is empty.
    ///
    /// The file itself is the caller's to create: nothing is written here.
    pub fn new(log_file_path: &str, terminate_on_error: bool) -> (logger: Logger)
        ensures
            logger@.log_file == resolved_log_file(log_file_path@),
            logger@.terminate_on_error == terminate_on_error,
    {
        let log_file = if log_file_path.is_empty() {
            "default.log".to_string()
        } else {
            log_file_path.to_string()
        };
        proof {
            lemma_resolved_log_file_is_set(log_file_path@);
        }
        Logger { log_file, terminate_on_error }
    }

    /// The path of the log file.
    pub fn log_file(&self) -> (path: &str)
        ensures
            path@ == self@.log_file,
            path@.len() > 0,
    {
        proof {
            use_type_invariant(self);
        }
        self.log_file.as_str()
    }

    /// Whether a record at the error level ends the process.
    pub fn terminate_on_error(&self) -> (flag: bool)
        ensures
            flag == self@.terminate_on_error,
    {
        self.terminate_on_error
    }

    /// Works out what logging `message` at `level` amounts to.
    ///
    /// The text goes to standard output first and to the log file second,
    /// unchanged. The process ends afterwards exactly when the level is
    /// `Error` and this logger was made to terminate on errors.
    pub fn log(&self, level: LogLevel, message: &str) -> (action: LogAction)
        ensures
            action.path@ == self@.log_file,
            action.path@.len() > 0,
            action.line@ == record_line(level, message@),
            action.terminate == terminates_after(level, self@.terminate_on_error),
    {
        proof {
            use_type_invariant(self);
        }
        let line = format_record(level, message);
        let terminate = level == LogLevel::Error && self.terminate_on_error;
        LogAction { path: self.log_file.clone(), line, terminate }
    }
}

impl Default for Logger {
    /// The default logger writes to `default.log` and terminates on errors.
    fn default() -> (logger: Logger)
        ensures
            logger@.log_file == default_log_file(),
            logger@.terminate_on_error,
    {
        proof {
            lemma_resolved_log_file_is_set(default_log_file());
        }
        Logger::new("default.log", true)
    }
}

impl Clone for Logger {
    /// The copy has the path and the policy of the logger it was made from.
    fn clone(&self) -> (copy: Logger)
        ensures
            copy@ == self@,
    {
        proof {
            use_type_invariant(self);
        }
        Logger { log_file: self.log_file.clone(), terminate_on_error: self.terminate_on_error }
    }
}

/// The path a logger writes to is never empty, and a path that is not empty
/// is kept as it is.
pub proof fn lemma_resolved_log_file_is_set(path: Seq<char>)
    ensures
        resolved_log_file(path).len() > 0,
        path.len() > 0 ==> resolved_log_file(path) == path,
        resolved_log_file(default_log_file()) == default_log_file(),
{
    reveal_strlit("default.log");
}

} // verus!
