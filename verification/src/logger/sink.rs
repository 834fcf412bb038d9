use super::message::LogMessagePayload;
use vstd::prelude::*;

verus! {

/// Somewhere log messages end up: a console, a file, a socket.
pub trait LoggerSink {
    /// Tells whether the sink has been handed `message`: what the sink
    /// promises of a call of `write` that has come back. A sink that does
    /// not say promises nothing.
    open spec fn takes(&self, message: LogMessagePayload) -> bool {
        true
    }

    /// Takes one message.
    fn write(&self, message: LogMessagePayload)
        ensures
            self.takes(message),
    ;
}

} // verus!
