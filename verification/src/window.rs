//! Messages that the server shows or logs on the client's side.

use vstd::prelude::*;

verus! {

/// The text of the log message that announces a started engine.
pub const GREETING: &'static str = "IAMA Core Engine Started";

/// How severe a message to the client is.
#[derive(Clone, Copy, Debug, PartialEq, Eq, Structural)]
pub enum MessageType {
    /// An error message.
    Error,
    /// A warning message.
    Warning,
    /// An information message.
    Info,
    /// A log message.
    Log,
}

/// The payload of a `window/logMessage` notification.
#[derive(Clone, Debug, PartialEq, Eq)]
pub struct LogMessage {
    /// The severity.
    pub typ: MessageType,
    /// The text to log.
    pub message: String,
}

/// A `LogMessage` as a mathematical value.
pub struct LogMessageView {
    pub typ: MessageType,
    pub message: Seq<char>,
}

impl LogMessageView {
    /// The informational message that carries the greeting.
    pub open spec fn greeting() -> LogMessageView {
        LogMessageView { typ: MessageType::Info, message: GREETING@ }
    }
}

impl View for LogMessage {
    type V = LogMessageView;

    open spec fn view(&self) -> LogMessageView {
        LogMessageView { typ: self.typ, message: self.message@ }
    }
}

impl LogMessage {
    /// An informational message with the given text.
    pub fn info(text: &str) -> (msg: LogMessage)
        ensures
            msg@ == (LogMessageView { typ: MessageType::Info, message: text@ }),
    {
        LogMessage { typ: MessageType::Info, message: text.to_owned() }
    }
}

} // verus!
