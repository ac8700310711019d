use cwlogs_shipper::handle::{
    push_outcome, write_result, IoErrorWrapper, Logger, PushError, SinkFailure,
};
use cwlogs_shipper::message::{stamped, timestamp_of, LogEvent};
use std::time::{Duration, Instant};
use tokio::sync::mpsc::channel;
use tokio::sync::mpsc::error::TrySendError;

#[test]
fn push_enqueues_a_stamped_message() {
    let (tx, mut rx) = channel(4);
    let logger = Logger::new(tx);
    logger.push("hello\n".to_string()).unwrap();
    logger.flush().unwrap();
    match rx.try_recv().unwrap() {
        LogEvent::Message(m) => {
            assert_eq!(m.text, "hello\n");
            assert!(m.timestamp > 1_500_000_000_000);
        }
        LogEvent::Flush => panic!("expected a message"),
    }
    assert!(matches!(rx.try_recv().unwrap(), LogEvent::Flush));
}

#[test]
fn events_keep_their_order_across_clones() {
    let (tx, mut rx) = channel(8);
    let a = Logger::new(tx);
    let b = a.clone();
    a.push("1\n".to_string()).unwrap();
    b.push("2\n".to_string()).unwrap();
    a.flush().unwrap();
    b.push("3\n".to_string()).unwrap();
    let mut seen = Vec::new();
    while let Ok(ev) = rx.try_recv() {
        seen.push(match ev {
            LogEvent::Message(m) => m.text,
            LogEvent::Flush => "<flush>".to_string(),
        });
    }
    assert_eq!(seen, vec!["1\n", "2\n", "<flush>", "3\n"]);
}

#[test]
fn push_on_full_queue_fails_at_once() {
    let (tx, _rx) = channel(2);
    let logger = Logger::new(tx);
    logger.push("a\n".to_string()).unwrap();
    logger.push("b\n".to_string()).unwrap();
    let start = Instant::now();
    for _ in 0..1000 {
        match logger.push("c\n".to_string()) {
            Err(PushError::QueueFull(LogEvent::Message(m))) => assert_eq!(m.text, "c\n"),
            other => panic!("unexpected {:?}", other),
        }
    }
    assert!(matches!(logger.flush(), Err(PushError::QueueFull(LogEvent::Flush))));
    assert!(start.elapsed() < Duration::from_secs(2));
}

#[test]
fn push_after_shipper_is_gone_reports_closed() {
    let (tx, rx) = channel(2);
    let logger = Logger::new(tx);
    drop(rx);
    let err = logger.push("x\n".to_string()).unwrap_err();
    assert!(!err.is_full());
    match err.into_event() {
        LogEvent::Message(m) => assert_eq!(m.text, "x\n"),
        LogEvent::Flush => panic!("expected the message back"),
    }
    assert!(matches!(logger.flush(), Err(PushError::QueueClosed(LogEvent::Flush))));
}

#[test]
fn queue_answers_map_onto_push_errors() {
    assert!(push_outcome(Ok(())).is_ok());
    assert!(matches!(
        push_outcome(Err(TrySendError::Full(LogEvent::Flush))),
        Err(PushError::QueueFull(LogEvent::Flush))
    ));
    assert!(matches!(
        push_outcome(Err(TrySendError::Closed(LogEvent::Flush))),
        Err(PushError::QueueClosed(LogEvent::Flush))
    ));
}

#[test]
fn full_queue_is_resource_exhaustion() {
    let w = IoErrorWrapper::from(PushError::QueueFull(LogEvent::Flush));
    assert_eq!(w.kind, SinkFailure::ResourceExhausted);
    assert!(w.cause.is_full());
    let e = w.into_io_error();
    assert_eq!(e.kind(), std::io::ErrorKind::OutOfMemory);
    assert_eq!(e.to_string(), "Channel is full");
}

#[test]
fn closed_queue_is_broken_pipe() {
    let w = IoErrorWrapper::from(PushError::QueueClosed(LogEvent::Flush));
    assert_eq!(w.kind, SinkFailure::BrokenPipe);
    let e = w.into_io_error();
    assert_eq!(e.kind(), std::io::ErrorKind::BrokenPipe);
    assert_eq!(e.to_string(), "Channel is closed");
}

#[test]
fn timestamps_from_clock_readings() {
    assert_eq!(timestamp_of(None), 0);
    assert_eq!(timestamp_of(Some(0)), 0);
    assert_eq!(timestamp_of(Some(1_700_000_000_123)), 1_700_000_000_123);
    assert_eq!(timestamp_of(Some(i64::MAX as u128)), i64::MAX);
    assert_eq!(timestamp_of(Some(u128::MAX)), i64::MAX);
}

#[test]
fn stamped_message_reads_the_clock() {
    let m = stamped("t\n".to_string());
    assert_eq!(m.text, "t\n");
    assert!(m.timestamp > 1_500_000_000_000);
}

#[test]
fn sink_write_reports_whole_length_or_io_failure() {
    assert_eq!(write_result(Ok(()), 17).unwrap(), 17);
    let full = write_result(Err(PushError::QueueFull(LogEvent::Flush)), 17).unwrap_err();
    assert_eq!(full.kind, SinkFailure::ResourceExhausted);
    assert_eq!(full.io_kind(), std::io::ErrorKind::OutOfMemory);
    let closed = write_result(Err(PushError::QueueClosed(LogEvent::Flush)), 3).unwrap_err();
    assert_eq!(closed.kind, SinkFailure::BrokenPipe);
    assert_eq!(closed.into_io_error().kind(), std::io::ErrorKind::BrokenPipe);
}

#[test]
fn write_enqueues_decoded_line_and_reports_length() {
    let (tx, mut rx) = channel(1);
    let logger = Logger::new(tx);
    assert_eq!(logger.write(b"ok \xff\n").unwrap(), 5);
    match rx.try_recv().unwrap() {
        LogEvent::Message(m) => assert_eq!(m.text, "ok \u{fffd}\n"),
        LogEvent::Flush => panic!("expected a message"),
    }
}

#[test]
fn write_to_full_queue_is_out_of_memory_channel_full() {
    let (tx, _rx) = channel(1);
    let logger = Logger::new(tx);
    logger.write(b"first\n").unwrap();
    let w = logger.write(b"second\n").unwrap_err();
    match &w.cause {
        PushError::QueueFull(LogEvent::Message(m)) => assert_eq!(m.text, "second\n"),
        other => panic!("unexpected {:?}", other),
    }
    let e = std::io::Error::from(w);
    assert_eq!(e.kind(), std::io::ErrorKind::OutOfMemory);
    assert_eq!(e.to_string(), "Channel is full");
}

#[test]
fn write_to_closed_queue_is_broken_pipe_channel_closed() {
    let (tx, rx) = channel(1);
    let logger = Logger::new(tx);
    drop(rx);
    let e = std::io::Error::from(logger.write(b"gone\n").unwrap_err());
    assert_eq!(e.kind(), std::io::ErrorKind::BrokenPipe);
    assert_eq!(e.to_string(), "Channel is closed");
}
