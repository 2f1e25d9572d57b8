//! Routing of log records to the console.
//!
//! Records of severity `Info` and above are turned into console messages and
//! published under the UI topic, so that the console shows them. The logger
//! is handed the bus it publishes on with every record.

use crate::bus::delivered;
use crate::bus::EventBus;
use crate::event::ConsoleLogLevel;
use crate::event::Event;
use crate::event::EventID;
use vstd::prelude::*;
use vstd::string::StringExecFns;

verus! {

/// Severity of a log record, most severe first.
#[derive(Debug, Clone, Copy, PartialEq, Eq, Structural)]
pub enum LogLevel {
    Error,
    Warn,
    Info,
    Debug,
    Trace,
}

impl LogLevel {
    /// Position of the severity, counted from the most severe.
    pub open spec fn rank(self) -> int {
        match self {
            LogLevel::Error => 1,
            LogLevel::Warn => 2,
            LogLevel::Info => 3,
            LogLevel::Debug => 4,
            LogLevel::Trace => 5,
        }
    }

    /// The word a record of this severity starts with.
    pub open spec fn label(self) -> Seq<char> {
        match self {
            LogLevel::Error => "ERROR"@,
            LogLevel::Warn => "WARN"@,
            LogLevel::Info => "INFO"@,
            LogLevel::Debug => "DEBUG"@,
            LogLevel::Trace => "TRACE"@,
        }
    }

    /// The severity the console shows a record of this severity with.
    pub open spec fn console_level(self) -> ConsoleLogLevel {
        match self {
            LogLevel::Error => ConsoleLogLevel::ERROR,
            LogLevel::Warn => ConsoleLogLevel::WARNING,
            _ => ConsoleLogLevel::INFO,
        }
    }

    /// Whether records of this severity are logged: `Info` and above.
    pub open spec fn is_logged(self) -> bool {
        self.rank() <= LogLevel::Info.rank()
    }
}

/// The line of a record: its severity, a colon and the message.
pub open spec fn record_line(level: LogLevel, message: Seq<char>) -> Seq<char> {
    level.label() + ": "@ + message
}

/// Sets a logger up.
pub struct LogBuilder {
    publishing: bool,
}

impl LogBuilder {
    /// Whether loggers built from here publish what they log.
    pub closed spec fn publishing(&self) -> bool {
        self.publishing
    }

    /// A builder of loggers that publish nothing.
    pub fn new() -> (builder: LogBuilder)
        ensures
            !builder.publishing(),
    {
        LogBuilder { publishing: false }
    }

    /// Has the loggers built from here publish what they log.
    pub fn publisher(&mut self)
        ensures
            final(self).publishing(),
    {
        self.publishing = true;
    }

    /// A logger as set up so far.
    pub fn build(&mut self) -> (logger: Logger)
        ensures
            logger.publishing() == old(self).publishing(),
            final(self).publishing() == old(self).publishing(),
    {
        Logger { publishing: self.publishing }
    }
}

/// Turns log records into console messages.
pub struct Logger {
    publishing: bool,
}

impl Logger {
    /// Whether the logger publishes what it logs.
    pub closed spec fn publishing(&self) -> bool {
        self.publishing
    }

    /// Whether a record of this severity is logged.
    pub fn enabled(&self, level: LogLevel) -> (enabled: bool)
        ensures
            enabled == level.is_logged(),
    {
        match level {
            LogLevel::Error | LogLevel::Warn | LogLevel::Info => true,
            _ => false,
        }
    }

    /// Logs a record. A record that is severe enough yields its line, for
    /// the caller to print, and, where the logger publishes, a console
    /// message with that line under the UI topic. Any other record is
    /// dropped.
    pub fn log(&self, bus: &mut EventBus, level: LogLevel, message: &str) -> (line: Option<String>)
        ensures
            line.is_some() == level.is_logged(),
            line matches Some(text) ==> text@ == record_line(level, message@),
            final(bus)@ == (match line {
                Some(text) if self.publishing() => delivered(
                    old(bus)@,
                    EventID::UIEvent,
                    Event::ConsoleMessage(text, level.console_level()),
                ),
                _ => old(bus)@,
            }),
    {
        if !self.enabled(level) {
            return None;
        }
        let label = match level {
            LogLevel::Error => "ERROR",
            LogLevel::Warn => "WARN",
            LogLevel::Info => "INFO",
            LogLevel::Debug => "DEBUG",
            LogLevel::Trace => "TRACE",
        };
        let text = label.to_owned().concat(": ").concat(message);
        if self.publishing {
            let shown = match level {
                LogLevel::Error => ConsoleLogLevel::ERROR,
                LogLevel::Warn => ConsoleLogLevel::WARNING,
                _ => ConsoleLogLevel::INFO,
            };
            bus.publish(EventID::UIEvent, Event::ConsoleMessage(text.clone(), shown));
        }
        Some(text)
    }
}

} // verus!
