//! A logger: messages with a severity, helpers that build them, and a
//! manager that hands each message to its sinks.

pub mod manager;
pub mod message;
pub mod sink;

pub use manager::LogManager;
pub use message::{LogMessage, LogMessagePayload};
pub use sink::LoggerSink;

use vstd::prelude::*;

verus! {

/// Something that takes log messages.
pub trait Logger {
    /// Takes one message.
    fn log(&self, message: LogMessage);
}

/// One method per severity, each of which logs its text with that severity.
pub trait LoggerHelpers {
    fn debug(&self, message: String);

    fn verbose(&self, message: String);

    fn info(&self, message: String);

    fn success(&self, message: String);

    fn warning(&self, message: String);

    fn error(&self, message: String);
}

impl LoggerHelpers for dyn Logger {
    fn debug(&self, message: String) {
        self.log(LogMessage::Debug(message));
    }

    fn verbose(&self, message: String) {
        self.log(LogMessage::Verbose(message));
    }

    fn info(&self, message: String) {
        self.log(LogMessage::Info(message));
    }

    fn success(&self, message: String) {
        self.log(LogMessage::Success(message));
    }

    fn warning(&self, message: String) {
        self.log(LogMessage::Warning(message));
    }

    fn error(&self, message: String) {
        self.log(LogMessage::Error(message));
    }
}

} // verus!
