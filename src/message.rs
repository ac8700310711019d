use vstd::prelude::*;
use std::time::{Duration, SystemTime, SystemTimeError, UNIX_EPOCH};

verus! {

/// One log line together with the wall-clock time at which it was pushed.
#[derive(Debug, Clone)]
pub struct LogMessage {
    /// The text of the record, normally one newline-terminated line.
    pub text: String,
    /// Milliseconds since the Unix epoch.
    pub timestamp: i64,
}

/// What travels through the queue from the handles to the shipper.
#[derive(Debug, Clone)]
pub enum LogEvent {
    /// A log line to append to the current batch.
    Message(LogMessage),
    /// A request to send whatever is buffered right away.
    Flush,
}

impl LogMessage {
    pub fn new(text: String, timestamp: i64) -> (r: LogMessage)
        ensures
            r.text@ == text@,
            r.timestamp == timestamp,
    {
        LogMessage { text, timestamp }
    }
}

/// The timestamp stored for a clock reading: milliseconds since the epoch,
/// saturated at `i64::MAX`; a clock set before the epoch reads as 0.
pub open spec fn timestamp_spec(elapsed: Option<u128>) -> i64 {
    match elapsed {
        Some(ms) => if ms <= i64::MAX as u128 { ms as i64 } else { i64::MAX },
        None => 0,
    }
}

/// Turns the time elapsed since the epoch, if the clock is past it, into the
/// timestamp of a message.
pub fn timestamp_of(elapsed: Option<u128>) -> (r: i64)
    ensures
        r == timestamp_spec(elapsed),
        r >= 0,
{
    match elapsed {
        Some(ms) => {
            if ms <= i64::MAX as u128 {
                ms as i64
            } else {
                i64::MAX
            }
        },
        None => 0,
    }
}

/// A reading of the system clock, carried through opaquely.
#[verifier::external_type_specification]
#[verifier::external_body]
pub struct ExSystemTime(SystemTime);

/// The error for a clock reading before the instant asked about.
#[verifier::external_type_specification]
#[verifier::external_body]
pub struct ExSystemTimeError(SystemTimeError);

/// Relies on `SystemTime::now`: a reading of the system clock, about which
/// nothing is promised.
pub assume_specification[ SystemTime::now ]() -> SystemTime;

/// Relies on `SystemTime::duration_since`: the time from `earlier` to the
/// reading, or an error when the reading lies before `earlier`.
pub assume_specification[ SystemTime::duration_since ](
    t: &SystemTime,
    earlier: SystemTime,
) -> Result<Duration, SystemTimeError>;

/// Relies on `Duration::as_millis`: the whole milliseconds in a duration.
pub assume_specification[ Duration::as_millis ](d: &Duration) -> u128;

/// Relies on `std::time::UNIX_EPOCH`: the instant that timestamps count from.
#[verifier::external_body]
fn unix_epoch() -> SystemTime {
    UNIX_EPOCH
}

/// The time elapsed since the Unix epoch in milliseconds, or `None` when the
/// system clock is set before the epoch.
fn millis_since_epoch() -> (r: Option<u128>) {
    match SystemTime::now().duration_since(unix_epoch()) {
        Ok(d) => Some(d.as_millis()),
        Err(_) => None,
    }
}

/// A message stamped with the current wall-clock time.
pub fn stamped(text: String) -> (r: LogMessage)
    ensures
        r.text@ == text@,
        r.timestamp >= 0,
{
    let elapsed = millis_since_epoch();
    LogMessage::new(text, timestamp_of(elapsed))
}

} // verus!
