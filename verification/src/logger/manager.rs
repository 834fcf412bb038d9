use super::message::{LogMessage, LogMessagePayload};
use super::sink::LoggerSink;
use crate::timer::DateTime;
use vstd::prelude::*;

verus! {

/// One sink of a [`LogManager`].
struct Slot {
    sink: Box<dyn LoggerSink>,
}

impl Slot {
    fn new(sink: Box<dyn LoggerSink>) -> Slot {
        Slot { sink }
    }
}

/// Tells whether `payload` is what the sinks get for `message` logged at
/// `timestamp`: the message, that moment, and the module `default`.
pub open spec fn is_payload(
    payload: LogMessagePayload,
    message: LogMessage,
    timestamp: DateTime,
) -> bool {
    &&& payload.message == message
    &&& payload.timestamp == timestamp
    &&& payload.module@ == "default"@
}

/// Hands every logged message to a list of sinks.
pub struct LogManager {
    sinks: Vec<Slot>,
}

impl LogManager {
    /// The number of sinks.
    pub closed spec fn spec_sink_count(&self) -> nat {
        self.sinks@.len()
    }

    /// Tells whether the sink at position `at`, counted from the oldest, has
    /// been handed `payload`.
    pub closed spec fn sink_takes(&self, at: int, payload: LogMessagePayload) -> bool {
        self.sinks@[at].sink.takes(payload)
    }

    /// Creates a manager without sinks.
    pub fn new() -> (manager: Self)
        ensures
            manager.spec_sink_count() == 0,
    {
        LogManager { sinks: Vec::new() }
    }

    /// The number of sinks.
    pub fn sink_count(&self) -> (count: usize)
        ensures
            count == self.spec_sink_count(),
    {
        self.sinks.len()
    }

    /// Adds a sink behind those already there, which stay as they are.
    pub fn add_sink(&mut self, sink: Box<dyn LoggerSink>)
        ensures
            final(self).spec_sink_count() == old(self).spec_sink_count() + 1,
            forall|at: int, payload: LogMessagePayload|
                0 <= at < old(self).spec_sink_count() ==> final(self).sink_takes(at, payload)
                    == old(self).sink_takes(at, payload),
    {
        self.sinks.push(Slot::new(sink));
    }

    /// The payload that the sinks get for a message logged at `timestamp`.
    pub fn payload(message: LogMessage, timestamp: DateTime) -> (payload: LogMessagePayload)
        ensures
            is_payload(payload, message, timestamp),
    {
        LogMessagePayload { message, timestamp, module: "default".to_owned() }
    }

    /// Writes the message to every sink, oldest first, with `timestamp` as
    /// the moment at which it was logged. Every sink is handed its own copy
    /// of one and the same payload.
    pub fn log_at(&self, message: LogMessage, timestamp: DateTime)
        ensures
            exists|payload: LogMessagePayload|
                {
                    &&& is_payload(payload, message, timestamp)
                    &&& forall|at: int|
                        0 <= at < self.spec_sink_count() ==> #[trigger] self.sink_takes(
                            at,
                            payload,
                        )
                },
    {
        let payload = LogManager::payload(message, timestamp);
        let mut i: usize = 0;
        while i < self.sinks.len()
            invariant
                i <= self.sinks@.len(),
                is_payload(payload, message, timestamp),
                forall|at: int| 0 <= at < i ==> #[trigger] self.sink_takes(at, payload),
            decreases self.sinks@.len() - i,
        {
            self.sinks[i].sink.write(payload.clone());
            i += 1;
        }
    }
}

} // verus!
