//! Batching log shipper: a non-blocking handle that enqueues log lines and
//! flush requests, and the state machine that turns the resulting signal
//! stream into ordered, bounded batches for a remote append-only log stream.
pub mod handle;
pub mod laws;
pub mod message;
pub mod shipper;

pub use handle::{IoErrorWrapper, Logger, PushError, SinkFailure};
pub use message::{LogEvent, LogMessage};
pub use shipper::{Action, Shipper, Signal, StreamCreation, StreamIdentity};
