//! A minimal logger: it composes the lines to write; the caller writes them.
use vstd::prelude::*;
use vstd::string::*;

verus! {

/// Severity of a log message.
#[derive(Clone, Copy, PartialEq, Eq, Structural, Debug)]
pub enum LogLevel {
    Trace,
    Debug,
    Info,
    Warn,
    Error,
}

/// A logger with a level.
pub struct Logger {
    log_level: LogLevel,
}

/// A log line: the head followed by the message.
fn print_log(head: &str, message: String) -> (line: String)
    ensures
        line@ == head@ + message@,
{
    let mut line = String::from_str(head);
    line.append(message.as_str());
    line
}

impl Logger {
    /// The logger's level.
    pub closed spec fn level(&self) -> LogLevel {
        self.log_level
    }

    /// Sets the logger's level.
    pub fn set_log_level(&mut self, log_level: LogLevel)
        ensures
            final(self).level() == log_level,
    {
        self.log_level = log_level;
    }

    /// The line this logger writes for `message` (the caller ends it with a newline):
    /// whatever the level, the head is `TRACE`.
    pub fn print(self, message: String) -> (line: String)
        ensures
            line@ == "TRACE"@ + message@,
    {
        match self.log_level {
            _ => print_log("TRACE", message),
        }
    }

    /// A logger at level `Trace`; the requested level is not applied yet.
    pub fn init(log_level: LogLevel) -> (l: Logger)
        ensures
            l.level() == LogLevel::Trace,
    {
        Logger { log_level: LogLevel::Trace }
    }
}

} // verus!
