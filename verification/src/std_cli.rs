//! The logging options the built-in command-line surface carries for a
//! service run. Parsing them from the command line and installing the
//! tracing subscriber they describe are external collaborators and live
//! with the host plumbing.

use vstd::prelude::*;

verus! {

/// Where and how the service writes its log.
#[derive(Clone, PartialEq, Eq, Debug)]
pub struct LoggingConfig {
    /// Path to write the log to; nothing is written when absent.
    pub log_file: Option<String>,
    /// Filter to use while logging.
    pub log_filter: Option<String>,
}

impl LoggingConfig {
    /// A logging configuration with the given log file and filter.
    pub fn new(log_file: Option<String>, log_filter: Option<String>) -> (r: LoggingConfig)
        ensures
            r.log_file == log_file,
            r.log_filter == log_filter,
    {
        LoggingConfig { log_file, log_filter }
    }
}

} // verus!
