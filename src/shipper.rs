use vstd::prelude::*;
use crate::message::{LogEvent, LogMessage};

verus! {

/// Default capacity of the queue between the handles and the shipper.
pub const BUF_SIZE: usize = 2048;

/// Default number of messages after which a batch is sent at once.
pub const MAX_ENTRIES: usize = 2048;

/// Default idle interval, in milliseconds, after which a non-empty batch is sent.
pub const IDLE_INTERVAL_MS: u64 = 1000;

/// The destination of a shipper on the backend: a stream within a group.
#[derive(Debug, Clone)]
pub struct StreamIdentity {
    pub group: String,
    pub id: String,
}

/// What the shipper's wait for the next signal ended with.
#[derive(Debug, Clone)]
pub enum Signal {
    /// An event taken from the queue.
    Received(LogEvent),
    /// No event arrived within the idle interval.
    TimedOut,
    /// Every handle is gone: the queue is closed and drained.
    Closed,
}

/// What the shipper's driver must do after a signal.
#[derive(Debug)]
pub enum Action {
    /// Nothing to send: wait for the next signal.
    Wait,
    /// Append this batch to the stream, then wait for the next signal.
    Send(Vec<LogMessage>),
    /// Append this final batch to the stream, then stop.
    SendAndStop(Vec<LogMessage>),
    /// Stop without sending anything.
    Stop,
}

/// The batch sent by an action, if any.
pub open spec fn sent_by(a: Action) -> Option<Seq<LogMessage>> {
    match a {
        Action::Send(b) => Some(b@),
        Action::SendAndStop(b) => Some(b@),
        _ => None,
    }
}

/// Whether an action ends the shipper.
pub open spec fn stops(a: Action) -> bool {
    a is SendAndStop || a is Stop
}

/// The pending batch after a signal, and the batch sent because of it.
///
/// A message is appended and the batch goes out once it holds `max` messages;
/// a flush request, an idle timeout and the closing of the queue each send a
/// non-empty batch and leave an empty one unsent.
pub open spec fn next_batch(max: nat, pending: Seq<LogMessage>, sig: Signal) -> (
    Seq<LogMessage>,
    Option<Seq<LogMessage>>,
) {
    match sig {
        Signal::Received(LogEvent::Message(m)) => {
            let p = pending.push(m);
            if p.len() >= max {
                (Seq::empty(), Some(p))
            } else {
                (p, None)
            }
        },
        _ => {
            if pending.len() > 0 {
                (Seq::empty(), Some(pending))
            } else {
                (pending, None)
            }
        },
    }
}

/// The batches joined end to end.
pub open spec fn concat(bs: Seq<Seq<LogMessage>>) -> Seq<LogMessage>
    decreases bs.len(),
{
    if bs.len() == 0 {
        Seq::empty()
    } else {
        concat(bs.drop_last()) + bs.last()
    }
}

/// Joining one more batch appends its messages.
pub proof fn lemma_concat_push(bs: Seq<Seq<LogMessage>>, b: Seq<LogMessage>)
    ensures
        concat(bs.push(b)) == concat(bs) + b,
{
    assert(bs.push(b).drop_last() =~= bs);
}

/// The pending batch left and the batches sent, in order, after feeding a
/// sequence of signals to the batching rule, starting from `pending`.
pub open spec fn run_batches(max: nat, pending: Seq<LogMessage>, sigs: Seq<Signal>) -> (
    Seq<LogMessage>,
    Seq<Seq<LogMessage>>,
)
    decreases sigs.len(),
{
    if sigs.len() == 0 {
        (pending, Seq::empty())
    } else {
        let (p, bs) = run_batches(max, pending, sigs.drop_last());
        let (p2, sent) = next_batch(max, p, sigs.last());
        match sent {
            Some(b) => (p2, bs.push(b)),
            None => (p2, bs),
        }
    }
}

/// The consuming side of the queue: accumulates messages into a batch and
/// decides when the batch is handed to the backend.
///
/// Time-based sending is governed by the idle timer alone: a batch below the
/// size threshold waits for a flush request, an idle timeout or the closing
/// of the queue, so that steady traffic is still batched.
pub struct Shipper {
    identity: StreamIdentity,
    batch: Vec<LogMessage>,
    max_entries: usize,
    stopped: bool,
    received: Ghost<Seq<LogMessage>>,
    sent: Ghost<Seq<Seq<LogMessage>>>,
    history: Ghost<Seq<Signal>>,
}

impl Shipper {
    /// The messages received and not yet handed out in a batch.
    pub closed spec fn pending(&self) -> Seq<LogMessage> {
        self.batch@
    }

    pub closed spec fn max_spec(&self) -> nat {
        self.max_entries as nat
    }

    pub closed spec fn is_stopped(&self) -> bool {
        self.stopped
    }

    pub closed spec fn identity_spec(&self) -> StreamIdentity {
        self.identity
    }

    /// Every message received so far, in the order received.
    pub closed spec fn received(&self) -> Seq<LogMessage> {
        self.received@
    }

    /// Every batch handed out so far, in the order handed out.
    pub closed spec fn sent(&self) -> Seq<Seq<LogMessage>> {
        self.sent@
    }

    /// Every signal processed so far, up to and including the closing of
    /// the queue, in the order processed.
    pub closed spec fn history(&self) -> Seq<Signal> {
        self.history@
    }

    /// The pending batch stays below the size threshold between signals,
    /// and is empty once the shipper has stopped. Nothing is lost, repeated
    /// or reordered: the batches handed out, joined end to end and followed
    /// by the pending batch, are exactly the messages received, and no batch
    /// handed out is empty or above the threshold.
    pub closed spec fn wf(&self) -> bool {
        &&& self.max_entries > 0
        &&& self.batch@.len() < self.max_entries
        &&& self.stopped ==> self.batch@.len() == 0
        &&& concat(self.sent@) + self.batch@ == self.received@
        &&& forall|i: int|
            0 <= i < self.sent@.len() ==> 0 < #[trigger] self.sent@[i].len() <= self.max_entries
        &&& run_batches(self.max_entries as nat, Seq::empty(), self.history@) == (
            self.batch@,
            self.sent@,
        )
        &&& self.stopped == (self.history@.len() > 0 && self.history@.last() is Closed)
    }

    /// A shipper for the given stream that sends a batch as soon as it holds
    /// `max_entries` messages.
    pub fn new(identity: StreamIdentity, max_entries: usize) -> (r: Shipper)
        requires
            max_entries > 0,
        ensures
            r.wf(),
            r.pending() == Seq::<LogMessage>::empty(),
            r.max_spec() == max_entries,
            !r.is_stopped(),
            r.identity_spec() == identity,
            r.received() == Seq::<LogMessage>::empty(),
            r.sent() == Seq::<Seq<LogMessage>>::empty(),
            r.history() == Seq::<Signal>::empty(),
    {
        let r = Shipper {
            identity,
            batch: Vec::new(),
            max_entries,
            stopped: false,
            received: Ghost(Seq::empty()),
            sent: Ghost(Seq::empty()),
            history: Ghost(Seq::empty()),
        };
        assert(concat(r.sent@) + r.batch@ =~= r.received@);
        r
    }

    pub fn identity(&self) -> (r: &StreamIdentity)
        ensures
            *r == self.identity_spec(),
    {
        &self.identity
    }

    pub fn max_entries(&self) -> (r: usize)
        ensures
            r == self.max_spec(),
    {
        self.max_entries
    }

    pub fn pending_len(&self) -> (r: usize)
        ensures
            r == self.pending().len(),
    {
        self.batch.len()
    }

    pub fn is_stopped_now(&self) -> (r: bool)
        ensures
            r == self.is_stopped(),
    {
        self.stopped
    }

    /// Hands out the pending batch, of at most the threshold's size, as a
    /// `Send` action, records it as sent and leaves an empty batch.
    fn send_pending(&mut self) -> (r: Action)
        requires
            old(self).max_entries > 0,
            0 < old(self).batch@.len() <= old(self).max_entries,
            concat(old(self).sent@) + old(self).batch@ == old(self).received@,
            forall|i: int|
                0 <= i < old(self).sent@.len() ==> 0 < #[trigger] old(self).sent@[i].len()
                    <= old(self).max_entries,
        ensures
            r matches Action::Send(b) && b@ == old(self).batch@,
            final(self).batch@ == Seq::<LogMessage>::empty(),
            final(self).identity == old(self).identity,
            final(self).max_entries == old(self).max_entries,
            final(self).stopped == old(self).stopped,
            final(self).received@ == old(self).received@,
            final(self).sent@ == old(self).sent@.push(old(self).batch@),
            final(self).history@ == old(self).history@,
            concat(final(self).sent@) == final(self).received@,
            forall|i: int|
                0 <= i < final(self).sent@.len() ==> 0 < #[trigger] final(self).sent@[i].len()
                    <= final(self).max_entries,
    {
        let ghost before = self.sent@;
        let mut b: Vec<LogMessage> = Vec::new();
        std::mem::swap(&mut b, &mut self.batch);
        proof {
            self.sent = Ghost(self.sent@.push(b@));
            lemma_concat_push(before, b@);
            assert(concat(self.sent@) + self.batch@ =~= concat(self.sent@));
            assert forall|i: int|
                0 <= i < self.sent@.len() implies 0 < #[trigger] self.sent@[i].len()
                    <= self.max_entries by {
                if i < before.len() {
                    assert(self.sent@[i] == before[i]);
                }
            }
        }
        Action::Send(b)
    }

    /// Advances the state machine by one signal and says what to do.
    ///
    /// A stopped shipper only answers `Stop`. Otherwise the new pending batch
    /// and the batch sent are those of `next_batch`; the shipper stops exactly
    /// when the queue is closed.
    pub fn step(&mut self, sig: Signal) -> (r: Action)
        requires
            old(self).wf(),
        ensures
            final(self).wf(),
            final(self).max_spec() == old(self).max_spec(),
            final(self).identity_spec() == old(self).identity_spec(),
            old(self).is_stopped() ==> r is Stop && final(self).pending() == old(self).pending()
                && final(self).is_stopped() && final(self).received() == old(self).received()
                && final(self).sent() == old(self).sent(),
            final(self).received() == match sig {
                Signal::Received(LogEvent::Message(m)) if !old(self).is_stopped() =>
                    old(self).received().push(m),
                _ => old(self).received(),
            },
            final(self).sent() == match sent_by(r) {
                Some(b) => old(self).sent().push(b),
                None => old(self).sent(),
            },
            final(self).history() == if old(self).is_stopped() {
                old(self).history()
            } else {
                old(self).history().push(sig)
            },
            !old(self).is_stopped() ==> {
                let (p, sent) = next_batch(old(self).max_spec(), old(self).pending(), sig);
                &&& final(self).pending() == p
                &&& sent_by(r) == sent
                &&& stops(r) == (sig is Closed)
                &&& final(self).is_stopped() == (sig is Closed)
            },
    {
        if self.stopped {
            return Action::Stop;
        }
        let ghost h = self.history@;
        let ghost g = sig;
        proof {
            self.history = Ghost(h.push(g));
            assert(h.push(g).drop_last() =~= h);
        }
        let r = match sig {
            Signal::Received(LogEvent::Message(m)) => {
                proof {
                    assert(concat(self.sent@) + self.batch@.push(m) =~= (concat(self.sent@)
                        + self.batch@).push(m));
                    self.received = Ghost(self.received@.push(m));
                }
                self.batch.push(m);
                if self.batch.len() >= self.max_entries {
                    self.send_pending()
                } else {
                    Action::Wait
                }
            },
            Signal::Received(LogEvent::Flush) | Signal::TimedOut => {
                if self.batch.len() > 0 {
                    self.send_pending()
                } else {
                    Action::Wait
                }
            },
            Signal::Closed => {
                if self.batch.len() > 0 {
                    let b = self.send_pending();
                    self.stopped = true;
                    match b {
                        Action::Send(b) => Action::SendAndStop(b),
                        other => other,
                    }
                } else {
                    self.stopped = true;
                    Action::Stop
                }
            },
        };
        r
    }
}


/// In every state of a shipper, each message received has been handed out
/// in a batch or is pending, once and in the order received; no batch handed
/// out is empty or above the threshold; and once the shipper has stopped,
/// every message received has been handed out. The pending batch stays below
/// the threshold, which is positive, and the shipper's batches are those
/// that the batching rule gives for the signals it has processed. It has
/// stopped exactly when the last signal it processed closed the queue.
pub proof fn lemma_shipper_delivers_in_order(s: Shipper)
    requires
        s.wf(),
    ensures
        s.max_spec() > 0,
        s.pending().len() < s.max_spec(),
        run_batches(s.max_spec(), Seq::empty(), s.history()) == (s.pending(), s.sent()),
        s.is_stopped() == (s.history().len() > 0 && s.history().last() is Closed),
        concat(s.sent()) + s.pending() == s.received(),
        forall|i: int| 0 <= i < s.sent().len() ==> 0 < #[trigger] s.sent()[i].len() <= s.max_spec(),
        s.is_stopped() ==> concat(s.sent()) == s.received(),
{
    if s.is_stopped() {
        assert(concat(s.sent()) + s.pending() =~= concat(s.sent()));
    }
}

/// How the backend answered the request to create the destination stream.
pub enum StreamCreation<E> {
    /// The stream was created.
    Created,
    /// The stream existed already.
    AlreadyExists,
    /// Creation failed for another reason.
    Failed(E),
}

/// Startup succeeds when the stream is there afterwards, whether it was just
/// created or existed before; any other failure is fatal.
pub open spec fn creation_result<E>(c: StreamCreation<E>) -> Result<(), E> {
    match c {
        StreamCreation::Failed(e) => Err(e),
        _ => Ok(()),
    }
}

/// Decides whether a shipper may start after its create-stream request.
pub fn settle_stream_creation<E>(c: StreamCreation<E>) -> (r: Result<(), E>)
    ensures
        r == creation_result(c),
{
    match c {
        StreamCreation::Failed(e) => Err(e),
        StreamCreation::Created => Ok(()),
        StreamCreation::AlreadyExists => Ok(()),
    }
}

} // verus!
