use cwlogs_shipper::message::{LogEvent, LogMessage};
use cwlogs_shipper::shipper::{
    settle_stream_creation, Action, Shipper, Signal, StreamCreation, StreamIdentity, BUF_SIZE,
    IDLE_INTERVAL_MS, MAX_ENTRIES,
};

fn shipper(max: usize) -> Shipper {
    Shipper::new(StreamIdentity { group: "grp".to_string(), id: "sess".to_string() }, max)
}

fn msg(text: &str, ts: i64) -> Signal {
    Signal::Received(LogEvent::Message(LogMessage::new(text.to_string(), ts)))
}

fn texts(batch: &[LogMessage]) -> Vec<String> {
    batch.iter().map(|m| m.text.clone()).collect()
}

fn sent(a: Action) -> Option<Vec<LogMessage>> {
    match a {
        Action::Send(b) | Action::SendAndStop(b) => Some(b),
        Action::Wait | Action::Stop => None,
    }
}

#[test]
fn defaults_match_configuration() {
    assert_eq!(BUF_SIZE, 2048);
    assert_eq!(MAX_ENTRIES, 2048);
    assert_eq!(IDLE_INTERVAL_MS, 1000);
}

#[test]
fn messages_arrive_in_order_across_batches() {
    let mut s = shipper(3);
    let mut delivered: Vec<String> = Vec::new();
    let lines = ["a\n", "b\n", "c\n", "d\n", "e\n", "f\n", "g\n"];
    for (i, l) in lines.iter().enumerate() {
        if let Some(b) = sent(s.step(msg(l, i as i64))) {
            assert!(!b.is_empty() && b.len() <= 3);
            delivered.extend(texts(&b));
        }
    }
    assert_eq!(s.pending_len(), 1);
    match s.step(Signal::Closed) {
        Action::SendAndStop(b) => delivered.extend(texts(&b)),
        other => panic!("unexpected {:?}", other),
    }
    assert_eq!(delivered, lines.iter().map(|l| l.to_string()).collect::<Vec<_>>());
}

#[test]
fn flush_sends_buffered_messages_once() {
    let mut s = shipper(4);
    assert!(matches!(s.step(msg("one\n", 10)), Action::Wait));
    assert!(matches!(s.step(msg("two\n", 11)), Action::Wait));
    match s.step(Signal::Received(LogEvent::Flush)) {
        Action::Send(b) => {
            assert_eq!(texts(&b), vec!["one\n".to_string(), "two\n".to_string()]);
            assert_eq!(b[0].timestamp, 10);
            assert_eq!(b[1].timestamp, 11);
        }
        other => panic!("unexpected {:?}", other),
    }
    assert_eq!(s.pending_len(), 0);
    assert!(matches!(s.step(msg("three\n", 12)), Action::Wait));
    match s.step(Signal::Received(LogEvent::Flush)) {
        Action::Send(b) => assert_eq!(texts(&b), vec!["three\n".to_string()]),
        other => panic!("unexpected {:?}", other),
    }
}

#[test]
fn flush_with_nothing_buffered_sends_nothing() {
    let mut s = shipper(4);
    assert!(matches!(s.step(Signal::Received(LogEvent::Flush)), Action::Wait));
    assert!(matches!(s.step(Signal::Received(LogEvent::Flush)), Action::Wait));
    assert_eq!(s.pending_len(), 0);
}

#[test]
fn full_batch_is_sent_exactly_once() {
    let max = 5;
    let mut s = shipper(max);
    let mut sends = Vec::new();
    for i in 0..max {
        if let Some(b) = sent(s.step(msg(&format!("line {}\n", i), i as i64))) {
            sends.push(b);
        }
    }
    assert_eq!(sends.len(), 1);
    assert_eq!(sends[0].len(), max);
    assert_eq!(sends[0][4].text, "line 4\n");
    assert!(matches!(s.step(Signal::TimedOut), Action::Wait));
    assert!(matches!(s.step(Signal::Received(LogEvent::Flush)), Action::Wait));
    assert_eq!(s.pending_len(), 0);
}

#[test]
fn full_batch_at_default_size() {
    let mut s = shipper(MAX_ENTRIES);
    let mut calls = 0;
    for i in 0..MAX_ENTRIES {
        if let Some(b) = sent(s.step(msg("x\n", i as i64))) {
            assert_eq!(b.len(), MAX_ENTRIES);
            calls += 1;
        }
    }
    assert_eq!(calls, 1);
}

#[test]
fn idle_timeout_sends_pending_messages() {
    let mut s = shipper(10);
    assert!(matches!(s.step(Signal::TimedOut), Action::Wait));
    assert!(matches!(s.step(msg("late\n", 3)), Action::Wait));
    match s.step(Signal::TimedOut) {
        Action::Send(b) => assert_eq!(texts(&b), vec!["late\n".to_string()]),
        other => panic!("unexpected {:?}", other),
    }
    assert!(matches!(s.step(Signal::TimedOut), Action::Wait));
}

#[test]
fn closing_sends_final_batch_then_stops() {
    let mut s = shipper(10);
    s.step(msg("last\n", 1));
    match s.step(Signal::Closed) {
        Action::SendAndStop(b) => assert_eq!(texts(&b), vec!["last\n".to_string()]),
        other => panic!("unexpected {:?}", other),
    }
    assert!(s.is_stopped_now());
    assert!(matches!(s.step(msg("after\n", 2)), Action::Stop));
    assert_eq!(s.pending_len(), 0);
}

#[test]
fn closing_with_empty_batch_sends_nothing() {
    let mut s = shipper(10);
    assert!(matches!(s.step(Signal::Closed), Action::Stop));
    assert!(s.is_stopped_now());
}

#[test]
fn shipper_keeps_its_stream_identity() {
    let s = shipper(7);
    assert_eq!(s.identity().group, "grp");
    assert_eq!(s.identity().id, "sess");
    assert_eq!(s.max_entries(), 7);
}

#[test]
fn existing_stream_is_as_good_as_a_new_one() {
    assert_eq!(settle_stream_creation::<String>(StreamCreation::Created), Ok(()));
    assert_eq!(settle_stream_creation::<String>(StreamCreation::AlreadyExists), Ok(()));
    assert_eq!(
        settle_stream_creation(StreamCreation::Failed("denied".to_string())),
        Err("denied".to_string())
    );
}
