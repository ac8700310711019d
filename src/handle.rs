use vstd::prelude::*;
use crate::message::{stamped, LogEvent};
use tokio::sync::mpsc::error::TrySendError;
use tokio::sync::mpsc::Sender;

verus! {

/// tokio's sending end of a bounded multi-producer, single-consumer queue,
/// carried through opaquely.
#[verifier::external_type_specification]
#[verifier::external_body]
#[verifier::reject_recursive_types(T)]
pub struct ExSender<T>(Sender<T>);

/// tokio's answer to a failed `try_send`, whose two variants the library
/// tells apart.
#[verifier::external_type_specification]
#[verifier::reject_recursive_types(T)]
pub struct ExTrySendError<T>(TrySendError<T>);

/// Relies on tokio's `Sender::try_send`: it never waits, and an error
/// (the queue is full, or the receiving side is gone) hands the message back.
pub assume_specification<T>[ Sender::<T>::try_send ](s: &Sender<T>, message: T) -> (r: Result<
    (),
    TrySendError<T>,
>)
    ensures
        r matches Err(TrySendError::Full(v)) ==> v == message,
        r matches Err(TrySendError::Closed(v)) ==> v == message,
;

/// Relies on tokio's `Clone` for `Sender`: one more handle on the same queue.
pub assume_specification<T>[ <Sender<T> as Clone>::clone ](s: &Sender<T>) -> (r: Sender<T>);

/// The standard I/O error that a rejected write is reported as.
#[verifier::external_type_specification]
#[verifier::external_body]
pub struct ExIoError(std::io::Error);

/// The standard kinds of I/O failure, whose variants the library names.
#[verifier::external_type_specification]
pub struct ExIoErrorKind(std::io::ErrorKind);

/// Why an event could not be enqueued; the event is handed back.
#[derive(Debug)]
pub enum PushError {
    /// The queue is at capacity: backpressure for the caller to handle.
    QueueFull(LogEvent),
    /// The shipper is gone: nothing more can be enqueued.
    QueueClosed(LogEvent),
}

impl PushError {
    /// The event that could not be enqueued.
    pub open spec fn event_spec(self) -> LogEvent {
        match self {
            PushError::QueueFull(e) => e,
            PushError::QueueClosed(e) => e,
        }
    }

    pub fn into_event(self) -> (r: LogEvent)
        ensures
            r == self.event_spec(),
    {
        match self {
            PushError::QueueFull(e) => e,
            PushError::QueueClosed(e) => e,
        }
    }

    pub fn is_full(&self) -> (r: bool)
        ensures
            r == (self is QueueFull),
    {
        match self {
            PushError::QueueFull(_) => true,
            PushError::QueueClosed(_) => false,
        }
    }
}

/// The outcome of an enqueue attempt as this library reports it.
pub open spec fn push_outcome_spec(r: Result<(), TrySendError<LogEvent>>) -> Result<(), PushError> {
    match r {
        Ok(()) => Ok(()),
        Err(TrySendError::Full(e)) => Err(PushError::QueueFull(e)),
        Err(TrySendError::Closed(e)) => Err(PushError::QueueClosed(e)),
    }
}

/// Maps the queue's answer to an enqueue attempt onto `PushError`.
pub fn push_outcome(r: Result<(), TrySendError<LogEvent>>) -> (out: Result<(), PushError>)
    ensures
        out == push_outcome_spec(r),
{
    match r {
        Ok(()) => Ok(()),
        Err(TrySendError::Full(e)) => Err(PushError::QueueFull(e)),
        Err(TrySendError::Closed(e)) => Err(PushError::QueueClosed(e)),
    }
}

/// The text that `String::from_utf8_lossy` makes of a run of bytes.
pub uninterp spec fn utf8_lossy_of(b: Seq<u8>) -> Seq<char>;

/// Relies on `String::from_utf8_lossy`: the bytes read as UTF-8, each
/// invalid sequence replaced; the result depends on the bytes alone.
#[verifier::external_body]
fn lossy_text(buf: &[u8]) -> (r: String)
    ensures
        r@ == utf8_lossy_of(buf@),
{
    String::from_utf8_lossy(buf).into_owned()
}

/// The producer side of the queue: cheap to clone, and never blocks.
///
/// Intended to receive complete, newline-terminated lines, for instance from
/// behind a line-buffering writer.
pub struct Logger {
    sender: Sender<LogEvent>,
}

impl Logger {
    /// The sending end of the queue that this handle enqueues onto.
    pub closed spec fn sender_spec(&self) -> Sender<LogEvent> {
        self.sender
    }

    /// A handle that enqueues onto the given sending end.
    pub fn new(sender: Sender<LogEvent>) -> (r: Logger)
        ensures
            r.sender_spec() == sender,
    {
        Logger { sender }
    }

    /// Enqueues an event without waiting. On failure the error says whether
    /// the queue was full or closed and hands the event back.
    pub fn push_event(&self, event: LogEvent) -> (r: Result<(), PushError>)
        ensures
            r matches Err(e) ==> e.event_spec() == event,
    {
        push_outcome(self.sender.try_send(event))
    }

    /// Enqueues a line stamped with the current time, without waiting.
    pub fn push(&self, message: String) -> (r: Result<(), PushError>)
        ensures
            r matches Err(e) ==> e.event_spec() matches LogEvent::Message(m) && m.text@ == message@
                && m.timestamp >= 0,
    {
        self.push_event(LogEvent::Message(stamped(message)))
    }

    /// Writes one line given as bytes, as a byte sink does: the bytes are
    /// read as UTF-8 and enqueued as a message. On success the whole length
    /// is reported written; otherwise the failure is reported as an I/O
    /// failure whose cause hands the message back.
    pub fn write(&self, buf: &[u8]) -> (r: Result<usize, IoErrorWrapper>)
        ensures
            r matches Ok(n) ==> n == buf@.len(),
            r matches Err(w) ==> w.kind == sink_failure_of(w.cause),
            r matches Err(w) ==> (w.cause.event_spec() matches LogEvent::Message(m) && m.text@
                == utf8_lossy_of(buf@)),
    {
        let text = lossy_text(buf);
        write_result(self.push(text), buf.len())
    }

    /// Enqueues a flush request, without waiting.
    pub fn flush(&self) -> (r: Result<(), PushError>)
        ensures
            r matches Err(e) ==> e.event_spec() is Flush,
    {
        self.push_event(LogEvent::Flush)
    }
}

impl Clone for Logger {
    /// Another handle on the same queue.
    fn clone(&self) -> (r: Logger) {
        Logger { sender: self.sender.clone() }
    }
}

/// The kind of I/O failure that a rejected write is reported as, for callers
/// that use a handle as a generic byte sink.
#[derive(Debug, Clone, Copy, PartialEq, Eq, Structural)]
pub enum SinkFailure {
    /// The queue is full: resources are exhausted for now.
    ResourceExhausted,
    /// The shipper is gone: the stream is closed.
    BrokenPipe,
}

/// A rejected enqueue, seen as an I/O failure: the kind that it maps to and
/// the cause as it was reported.
#[derive(Debug)]
pub struct IoErrorWrapper {
    pub kind: SinkFailure,
    pub cause: PushError,
}

/// A full queue is resource exhaustion; a closed one is a broken pipe.
pub open spec fn sink_failure_of(e: PushError) -> SinkFailure {
    match e {
        PushError::QueueFull(_) => SinkFailure::ResourceExhausted,
        PushError::QueueClosed(_) => SinkFailure::BrokenPipe,
    }
}

impl From<PushError> for IoErrorWrapper {
    fn from(error: PushError) -> (r: IoErrorWrapper) {
        let kind = match &error {
            PushError::QueueFull(_) => SinkFailure::ResourceExhausted,
            PushError::QueueClosed(_) => SinkFailure::BrokenPipe,
        };
        IoErrorWrapper { kind, cause: error }
    }
}

impl vstd::std_specs::convert::FromSpecImpl<PushError> for IoErrorWrapper {
    open spec fn obeys_from_spec() -> bool {
        true
    }

    open spec fn from_spec(error: PushError) -> IoErrorWrapper {
        IoErrorWrapper { kind: sink_failure_of(error), cause: error }
    }
}

/// The kind of a standard I/O error, as `std::io::Error::kind` reports it.
pub uninterp spec fn io_kind_of(e: std::io::Error) -> std::io::ErrorKind;

/// Relies on `std::io::Error::kind`: the kind that the error carries.
pub assume_specification[ std::io::Error::kind ](e: &std::io::Error) -> (r: std::io::ErrorKind)
    ensures
        r == io_kind_of(*e),
;

/// The text that a standard I/O error shows when displayed.
pub uninterp spec fn io_message_of(e: std::io::Error) -> Seq<char>;

/// Relies on `std::io::Error::new`: an error of the given kind that carries
/// the given text, which is what it shows when displayed.
#[verifier::external_body]
fn io_error(kind: std::io::ErrorKind, text: &str) -> (r: std::io::Error)
    ensures
        io_kind_of(r) == kind,
        io_message_of(r) == text@,
{
    std::io::Error::new(kind, text)
}

impl IoErrorWrapper {
    /// The text that the I/O error carries for a failure kind.
    pub fn description(kind: SinkFailure) -> (r: &'static str)
        ensures
            kind is ResourceExhausted ==> r@ == "Channel is full"@,
            kind is BrokenPipe ==> r@ == "Channel is closed"@,
    {
        match kind {
            SinkFailure::ResourceExhausted => "Channel is full",
            SinkFailure::BrokenPipe => "Channel is closed",
        }
    }

    /// The kind of standard I/O error that this failure is reported as:
    /// `OutOfMemory` for a full queue, `BrokenPipe` for a closed one.
    pub fn io_kind(&self) -> (r: std::io::ErrorKind)
        ensures
            self.kind is ResourceExhausted ==> r == std::io::ErrorKind::OutOfMemory,
            self.kind is BrokenPipe ==> r == std::io::ErrorKind::BrokenPipe,
    {
        match self.kind {
            SinkFailure::ResourceExhausted => std::io::ErrorKind::OutOfMemory,
            SinkFailure::BrokenPipe => std::io::ErrorKind::BrokenPipe,
        }
    }

    /// The standard I/O error that a byte sink reports for this failure.
    pub fn into_io_error(self) -> (r: std::io::Error)
        ensures
            self.kind is ResourceExhausted ==> io_kind_of(r) == std::io::ErrorKind::OutOfMemory,
            self.kind is BrokenPipe ==> io_kind_of(r) == std::io::ErrorKind::BrokenPipe,
            self.kind is ResourceExhausted ==> io_message_of(r) == "Channel is full"@,
            self.kind is BrokenPipe ==> io_message_of(r) == "Channel is closed"@,
    {
        let kind = self.io_kind();
        io_error(kind, IoErrorWrapper::description(self.kind))
    }
}

impl From<IoErrorWrapper> for std::io::Error {
    /// The standard I/O error for a rejected write: see `into_io_error`.
    fn from(wrapper: IoErrorWrapper) -> (r: std::io::Error)
        ensures
            wrapper.kind is ResourceExhausted ==> io_kind_of(r) == std::io::ErrorKind::OutOfMemory
                && io_message_of(r) == "Channel is full"@,
            wrapper.kind is BrokenPipe ==> io_kind_of(r) == std::io::ErrorKind::BrokenPipe
                && io_message_of(r) == "Channel is closed"@,
    {
        wrapper.into_io_error()
    }
}

/// The result of the conversion is stated on `from` itself, over the kind
/// and the text of the error; no closed form of it is given here.
impl vstd::std_specs::convert::FromSpecImpl<IoErrorWrapper> for std::io::Error {
    open spec fn obeys_from_spec() -> bool {
        false
    }

    open spec fn from_spec(wrapper: IoErrorWrapper) -> std::io::Error {
        vstd::pervasive::arbitrary()
    }
}

/// What a byte sink reports for a write of `written` bytes, given how the
/// enqueue went.
pub open spec fn write_result_spec(pushed: Result<(), PushError>, written: usize) -> Result<
    usize,
    IoErrorWrapper,
> {
    match pushed {
        Ok(()) => Ok(written),
        Err(e) => Err(IoErrorWrapper { kind: sink_failure_of(e), cause: e }),
    }
}

/// The answer of a byte sink to a write of `written` bytes: the whole length
/// when the line was enqueued, otherwise the failure seen as an I/O failure.
pub fn write_result(pushed: Result<(), PushError>, written: usize) -> (r: Result<
    usize,
    IoErrorWrapper,
>)
    ensures
        r == write_result_spec(pushed, written),
{
    match pushed {
        Ok(()) => Ok(written),
        Err(e) => Err(IoErrorWrapper::from(e)),
    }
}

} // verus!
