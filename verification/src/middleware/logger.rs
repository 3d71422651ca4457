//! The logging middleware.
//!
//! The middleware reports each message when it arrives and when the rest of
//! the chain is done with it. It composes the lines to log; writing them to
//! a log is left to the caller.

use crate::error::{Error, Result};
use crate::message::{Message, MessageType};
use std::sync::Arc;
use vstd::prelude::*;
use vstd::string::StringExecFns;

verus! {

/// The level at which the middleware logs.
#[derive(Debug, Clone, Copy, PartialEq, Eq, Structural)]
pub enum LogLevel {
    /// Detailed information for debugging.
    Debug,
    /// General information.
    Info,
    /// Warnings.
    Warn,
}

/// The severity of a line to log.
#[derive(Debug, Clone, Copy, PartialEq, Eq, Structural)]
pub enum Severity {
    /// Detailed information for debugging.
    Debug,
    /// General information.
    Info,
    /// A warning.
    Warn,
    /// An error.
    Error,
}

/// A line to log.
#[derive(Debug)]
pub struct LogLine {
    /// The severity of the line.
    pub severity: Severity,
    /// The text of the line.
    pub text: String,
}

/// The severity of the lines that are logged at a level.
pub open spec fn severity_of(level: LogLevel) -> Severity {
    match level {
        LogLevel::Debug => Severity::Debug,
        LogLevel::Info => Severity::Info,
        LogLevel::Warn => Severity::Warn,
    }
}

/// The name of a kind of message.
pub open spec fn kind_name(kind: MessageType) -> Seq<char> {
    match kind {
        MessageType::Text => "Text"@,
        MessageType::Binary => "Binary"@,
        MessageType::Ping => "Ping"@,
        MessageType::Pong => "Pong"@,
        MessageType::Close => "Close"@,
    }
}

/// The text that reports an inbound message.
pub open spec fn received_text(conn_id: Seq<char>, kind: MessageType) -> Seq<char> {
    "["@ + conn_id + "] Received "@ + kind_name(kind) + " message"@
}

/// The text that reports the end of a dispatch.
pub open spec fn completed_text(
    conn_id: Seq<char>,
    outcome: Result<Option<Message>>,
    elapsed: Seq<char>,
) -> Seq<char> {
    match outcome {
        Ok(Some(_)) => "["@ + conn_id + "] Sent response in "@ + elapsed,
        Ok(None) => "["@ + conn_id + "] Processed in "@ + elapsed,
        Err(e) => "["@ + conn_id + "] Error in "@ + elapsed + ": "@ + e.display_text(),
    }
}

/// A middleware that logs every message and the outcome of its dispatch.
#[derive(Debug)]
pub struct LoggerMiddleware {
    log_level: LogLevel,
}

impl LoggerMiddleware {
    /// The level at which this middleware logs.
    pub closed spec fn level_view(&self) -> LogLevel {
        self.log_level
    }

    /// Creates a logging middleware that logs at the level `Info`.
    pub fn new() -> (logger: Arc<LoggerMiddleware>)
        ensures
            logger.level_view() == LogLevel::Info,
    {
        Arc::new(LoggerMiddleware { log_level: LogLevel::Info })
    }

    /// Creates a logging middleware that logs at the given level.
    pub fn with_level(level: LogLevel) -> (logger: Arc<LoggerMiddleware>)
        ensures
            logger.level_view() == level,
    {
        Arc::new(LoggerMiddleware { log_level: level })
    }

    /// The level at which this middleware logs.
    pub fn level(&self) -> (level: LogLevel)
        ensures
            level == self.level_view(),
    {
        self.log_level
    }

    /// The severity of the lines of this middleware.
    fn severity(&self) -> (severity: Severity)
        ensures
            severity == severity_of(self.level_view()),
    {
        match self.log_level {
            LogLevel::Debug => Severity::Debug,
            LogLevel::Info => Severity::Info,
            LogLevel::Warn => Severity::Warn,
        }
    }

    /// The line that reports an inbound message, at the level of this
    /// middleware.
    pub fn received(&self, conn_id: &str, kind: MessageType) -> (line: LogLine)
        ensures
            line.severity == severity_of(self.level_view()),
            line.text@ == received_text(conn_id@, kind),
    {
        let name = match kind {
            MessageType::Text => "Text",
            MessageType::Binary => "Binary",
            MessageType::Ping => "Ping",
            MessageType::Pong => "Pong",
            MessageType::Close => "Close",
        };
        let mut text = String::from_str("[");
        text.append(conn_id);
        text.append("] Received ");
        text.append(name);
        text.append(" message");
        LogLine { severity: self.severity(), text }
    }

    /// The line that reports the end of a dispatch after the time
    /// `elapsed`: at the level of this middleware where the dispatch
    /// succeeded, and as an error where it failed.
    pub fn completed(
        &self,
        conn_id: &str,
        outcome: &Result<Option<Message>>,
        elapsed: &str,
    ) -> (line: LogLine)
        ensures
            line.severity == (if outcome is Ok {
                severity_of(self.level_view())
            } else {
                Severity::Error
            }),
            line.text@ == completed_text(conn_id@, *outcome, elapsed@),
    {
        let mut text = String::from_str("[");
        text.append(conn_id);
        match outcome {
            Ok(Some(_)) => {
                text.append("] Sent response in ");
                text.append(elapsed);
                LogLine { severity: self.severity(), text }
            },
            Ok(None) => {
                text.append("] Processed in ");
                text.append(elapsed);
                LogLine { severity: self.severity(), text }
            },
            Err(e) => {
                text.append("] Error in ");
                text.append(elapsed);
                text.append(": ");
                text.append(e.to_string().as_str());
                LogLine { severity: Severity::Error, text }
            },
        }
    }
}

impl Default for LoggerMiddleware {
    fn default() -> (logger: LoggerMiddleware)
        ensures
            logger.level_view() == LogLevel::Info,
    {
        LoggerMiddleware { log_level: LogLevel::Info }
    }
}

} // verus!
