//! Severity levels of log lines, the policy that picks one from a
//! command-line token, and the settings under which the process logs.

use crate::text::{same_text, slice_text};
use vstd::prelude::*;

verus! {

/// The name under which the process logs.
pub const PROC_NAME: &'static str = "casperlabs-engine-grpc-server";

/// Severity of a log line, from the most to the least severe.
#[derive(Clone, Copy, Debug, PartialEq, Eq, Structural)]
pub enum LogLevel {
    Fatal,
    Error,
    Warning,
    Info,
    Debug,
}

/// The least severe level that is still logged.
#[derive(Clone, Copy, Debug, PartialEq, Eq, Structural)]
pub struct LogLevelFilter {
    pub level: LogLevel,
}

impl LogLevelFilter {
    /// The filter that lets this level and the more severe ones through.
    pub fn new(level: LogLevel) -> (filter: LogLevelFilter)
        ensures
            filter.level == level,
    {
        LogLevelFilter { level }
    }
}

/// The settings shared by everything the process logs.
#[derive(Debug)]
pub struct LogSettings {
    pub process_name: String,
    pub level_filter: LogLevelFilter,
}

impl LogSettings {
    /// Settings for a process of this name with this filter.
    pub fn new(process_name: &str, level_filter: LogLevelFilter) -> (settings: LogSettings)
        ensures
            settings.process_name@ == process_name@,
            settings.level_filter == level_filter,
    {
        LogSettings { process_name: process_name.to_owned(), level_filter }
    }
}

impl Clone for LogSettings {
    /// A copy with the same name and filter.
    fn clone(&self) -> (copy: LogSettings)
        ensures
            copy.process_name@ == self.process_name@,
            copy.level_filter == self.level_filter,
    {
        LogSettings { process_name: self.process_name.clone(), level_filter: self.level_filter }
    }
}

/// The level that a token names: the four recognized tokens name their own
/// level, and every other token, like no token at all, names `Info`.
pub open spec fn level_of_token(token: Option<Seq<char>>) -> LogLevel {
    match token {
        Some(text) => if text == "fatal"@ {
            LogLevel::Fatal
        } else if text == "error"@ {
            LogLevel::Error
        } else if text == "warning"@ {
            LogLevel::Warning
        } else if text == "debug"@ {
            LogLevel::Debug
        } else {
            LogLevel::Info
        },
        None => LogLevel::Info,
    }
}

/// Picks the log level for the token given on the command line. Matching is
/// case-sensitive; an unrecognized or missing token is no error and gives
/// `Info`.
pub fn resolve_log_level(token: Option<&str>) -> (level: LogLevel)
    ensures
        level == level_of_token(slice_text(token)),
{
    match token {
        Some(text) => {
            if same_text(text, "fatal") {
                LogLevel::Fatal
            } else if same_text(text, "error") {
                LogLevel::Error
            } else if same_text(text, "warning") {
                LogLevel::Warning
            } else if same_text(text, "debug") {
                LogLevel::Debug
            } else {
                LogLevel::Info
            }
        },
        None => LogLevel::Info,
    }
}

/// The filter for the token given on the command line.
pub fn get_log_level_filter(input: Option<&str>) -> (filter: LogLevelFilter)
    ensures
        filter.level == level_of_token(slice_text(input)),
{
    LogLevelFilter::new(resolve_log_level(input))
}

/// The settings of the process. Where the command line counts
/// (`check_args`), the filter is the one its token names; where it does not,
/// everything down to `Debug` is logged.
pub fn get_log_settings(check_args: bool, token: Option<&str>) -> (settings: LogSettings)
    ensures
        settings.process_name@ == PROC_NAME@,
        settings.level_filter.level == if check_args {
            level_of_token(slice_text(token))
        } else {
            LogLevel::Debug
        },
{
    if check_args {
        LogSettings::new(PROC_NAME, get_log_level_filter(token))
    } else {
        LogSettings::new(PROC_NAME, LogLevelFilter::new(LogLevel::Debug))
    }
}

} // verus!
