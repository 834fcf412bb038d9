//! Small generic containers and the verified core of a worker pool.
//!
//! The containers are a linked-list [`Stack`], a two-stack [`Queue`], a
//! shared [`ArcQueue`] and a [`Graph`]. The pool is a state machine: a
//! [`TaskQueue`] holds the backlog and the flags of its workers, every step
//! of a producer or a worker is one method call, and the laws that hold of
//! every interleaving of such steps are proved in [`pool_state`]. Threads,
//! sleeping and the catching of panics are left to the caller.
//!
//! Around them stand an [`EventBus`], a [`MessageQueue`], a [`Pipeline`] and
//! a [`Signal`], which pass values to closures, and a [`LogManager`], which
//! passes log messages to its sinks.

pub mod arc_queue;
pub mod callback;
pub mod converters;
pub mod event_bus;
pub mod graph;
pub mod linear_data;
pub mod logger;
pub mod message_queue;
pub mod pipeline;
pub mod pool_state;
pub mod queue;
pub mod signal;
pub mod single;
pub mod stack;
pub mod sync;
pub mod task;
pub mod task_queue;
pub mod timer;
pub mod worker;

pub use arc_queue::ArcQueue;
pub use callback::{Callback, Handler};
pub use converters::{split_pair, ConvertError};
pub use event_bus::EventBus;
pub use graph::{EdgeView, Graph, GraphEdge, GraphEdgeId, GraphNode, GraphNodeId, GraphView};
pub use linear_data::LinearData;
pub use logger::{LogManager, LogMessage, LogMessagePayload, Logger, LoggerHelpers, LoggerSink};
pub use message_queue::MessageQueue;
pub use pipeline::Pipeline;
pub use pool_state::{PoolEvent, PoolState};
pub use queue::Queue;
pub use signal::{Signal, SignalState};
pub use single::SingleIterator;
pub use stack::Stack;
pub use task::{HandlerOutcome, Task, TaskState, TaskStep};
pub use task_queue::TaskQueue;
pub use timer::{Date, DateTime, Time, TimeZone};
pub use worker::{Worker, WorkerStep};
