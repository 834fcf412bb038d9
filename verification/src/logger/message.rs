use crate::timer::DateTime;
use vstd::prelude::*;

verus! {

/// A log message with its severity.
#[derive(PartialEq, Eq, Debug)]
pub enum LogMessage {
    Debug(String),
    Verbose(String),
    Info(String),
    Success(String),
    Warning(String),
    Error(String),
}

impl LogMessage {
    /// The name of the severity, as it stands in front of a logged line.
    pub open spec fn spec_label(&self) -> Seq<char> {
        match self {
            LogMessage::Debug(_) => "DEBUG"@,
            LogMessage::Verbose(_) => "VERBOSE"@,
            LogMessage::Info(_) => "INFO"@,
            LogMessage::Success(_) => "SUCCESS"@,
            LogMessage::Warning(_) => "WARNING"@,
            LogMessage::Error(_) => "ERROR"@,
        }
    }

    /// The text of the message.
    pub open spec fn spec_text(&self) -> String {
        match self {
            LogMessage::Debug(text) => *text,
            LogMessage::Verbose(text) => *text,
            LogMessage::Info(text) => *text,
            LogMessage::Success(text) => *text,
            LogMessage::Warning(text) => *text,
            LogMessage::Error(text) => *text,
        }
    }

    /// The name of the severity, as it stands in front of a logged line.
    pub fn label(&self) -> (label: &'static str)
        ensures
            label@ == self.spec_label(),
    {
        match self {
            LogMessage::Debug(_) => "DEBUG",
            LogMessage::Verbose(_) => "VERBOSE",
            LogMessage::Info(_) => "INFO",
            LogMessage::Success(_) => "SUCCESS",
            LogMessage::Warning(_) => "WARNING",
            LogMessage::Error(_) => "ERROR",
        }
    }

    /// The text of the message.
    pub fn text(&self) -> (text: &String)
        ensures
            *text == self.spec_text(),
    {
        match self {
            LogMessage::Debug(text) => text,
            LogMessage::Verbose(text) => text,
            LogMessage::Info(text) => text,
            LogMessage::Success(text) => text,
            LogMessage::Warning(text) => text,
            LogMessage::Error(text) => text,
        }
    }
}

impl Clone for LogMessage {
    fn clone(&self) -> (copy: Self)
        ensures
            copy == *self,
    {
        match self {
            LogMessage::Debug(text) => LogMessage::Debug(text.clone()),
            LogMessage::Verbose(text) => LogMessage::Verbose(text.clone()),
            LogMessage::Info(text) => LogMessage::Info(text.clone()),
            LogMessage::Success(text) => LogMessage::Success(text.clone()),
            LogMessage::Warning(text) => LogMessage::Warning(text.clone()),
            LogMessage::Error(text) => LogMessage::Error(text.clone()),
        }
    }
}

/// A log message on its way to the sinks: the message, the moment at which
/// it was logged, and the module it came from.
#[derive(PartialEq, Eq, Debug)]
pub struct LogMessagePayload {
    pub message: LogMessage,
    pub timestamp: DateTime,
    pub module: String,
}

impl Clone for LogMessagePayload {
    fn clone(&self) -> (copy: Self)
        ensures
            copy == *self,
    {
        LogMessagePayload {
            message: self.message.clone(),
            timestamp: self.timestamp,
            module: self.module.clone(),
        }
    }
}

} // verus!
