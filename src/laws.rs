use vstd::prelude::*;
use crate::handle::{push_outcome_spec, PushError};
use crate::message::{LogEvent, LogMessage};
use crate::shipper::{
    concat, creation_result, lemma_shipper_delivers_in_order, next_batch, run_batches, Shipper,
    Signal, StreamCreation,
};
use tokio::sync::mpsc::error::TrySendError;

verus! {

/// The messages carried by a sequence of signals, in order.
pub open spec fn messages_of(sigs: Seq<Signal>) -> Seq<LogMessage>
    decreases sigs.len(),
{
    if sigs.len() == 0 {
        Seq::empty()
    } else {
        match sigs.last() {
            Signal::Received(LogEvent::Message(m)) => messages_of(sigs.drop_last()).push(m),
            _ => messages_of(sigs.drop_last()),
        }
    }
}

/// The signals by which a sequence of messages arrives, with no flush
/// request or idle gap between them.
pub open spec fn as_signals(msgs: Seq<LogMessage>) -> Seq<Signal> {
    msgs.map_values(|m: LogMessage| Signal::Received(LogEvent::Message(m)))
}

/// Every message received reaches the backend exactly once and in the order
/// received: the batches sent, joined end to end and followed by what is still
/// pending, are what was pending before followed by the messages received.
/// No batch is empty or larger than the threshold, and once the queue is
/// closed nothing remains pending.
pub proof fn lemma_batches_partition_messages(
    max: nat,
    pending: Seq<LogMessage>,
    sigs: Seq<Signal>,
)
    requires
        max > 0,
        pending.len() < max,
    ensures
        ({
            let (p, bs) = run_batches(max, pending, sigs);
            &&& concat(bs) + p == pending + messages_of(sigs)
            &&& p.len() < max
            &&& forall|i: int| 0 <= i < bs.len() ==> 0 < #[trigger] bs[i].len() <= max
            &&& (sigs.len() > 0 && sigs.last() is Closed) ==> p.len() == 0
        }),
    decreases sigs.len(),
{
    if sigs.len() > 0 {
        let prev = sigs.drop_last();
        lemma_batches_partition_messages(max, pending, prev);
        let (p, bs) = run_batches(max, pending, prev);
        let (p2, sent) = next_batch(max, p, sigs.last());
        match sent {
            Some(b) => {
                let bs2 = bs.push(b);
                assert(bs2.drop_last() =~= bs);
                assert(concat(bs2) == concat(bs) + b);
                assert forall|i: int| 0 <= i < bs2.len() implies 0 < #[trigger] bs2[i].len() <= max by {
                    if i < bs.len() {
                        assert(bs2[i] == bs[i]);
                    }
                }
            },
            None => {},
        }
        match sigs.last() {
            Signal::Received(LogEvent::Message(m)) => {
                assert(messages_of(sigs) == messages_of(prev).push(m));
                assert(concat(bs) + p.push(m) =~= (concat(bs) + p).push(m));
                assert((pending + messages_of(prev)).push(m) =~= pending + messages_of(prev).push(m));
                let (p3, bs3) = run_batches(max, pending, sigs);
                assert(concat(bs3) + p3 =~= pending + messages_of(sigs));
            },
            _ => {
                assert(messages_of(sigs) == messages_of(prev));
                let (p3, bs3) = run_batches(max, pending, sigs);
                assert(concat(bs3) + p3 =~= pending + messages_of(sigs));
            },
        }
    } else {
        assert(concat(Seq::<Seq<LogMessage>>::empty()) + pending =~= pending + messages_of(sigs));
    }
}

/// A flush request with messages buffered below the threshold sends exactly
/// those messages, in one batch, and leaves nothing pending.
pub proof fn lemma_flush_sends_buffered(max: nat, pending: Seq<LogMessage>)
    requires
        0 < pending.len() < max,
    ensures
        next_batch(max, pending, Signal::Received(LogEvent::Flush)) == (
        Seq::<LogMessage>::empty(),
        Some(pending),
        ),
{
}

/// A flush request with nothing buffered sends nothing.
pub proof fn lemma_flush_of_empty_sends_nothing(max: nat)
    ensures
        next_batch(max, Seq::<LogMessage>::empty(), Signal::Received(LogEvent::Flush)) == (
        Seq::<LogMessage>::empty(),
        None::<Seq<LogMessage>>,
        ),
{
}

/// Receiving fewer messages than the threshold from an empty batch sends
/// nothing and leaves them all pending.
proof fn lemma_below_threshold_held(max: nat, msgs: Seq<LogMessage>)
    requires
        msgs.len() < max,
    ensures
        run_batches(max, Seq::empty(), as_signals(msgs)) == (msgs, Seq::<Seq<LogMessage>>::empty()),
    decreases msgs.len(),
{
    if msgs.len() > 0 {
        let prev = msgs.drop_last();
        assert(as_signals(msgs).drop_last() =~= as_signals(prev));
        lemma_below_threshold_held(max, prev);
        assert(prev.push(msgs.last()) =~= msgs);
    } else {
        assert(as_signals(msgs) =~= Seq::<Signal>::empty());
        assert(msgs =~= Seq::<LogMessage>::empty());
    }
}

/// Exactly `max` messages in a row, from an empty batch, go out as one batch
/// holding all of them, and nothing is left pending.
pub proof fn lemma_full_batch_sent_once(max: nat, msgs: Seq<LogMessage>)
    requires
        max > 0,
        msgs.len() == max,
    ensures
        run_batches(max, Seq::empty(), as_signals(msgs)) == (
        Seq::<LogMessage>::empty(),
        seq![msgs],
        ),
{
    let prev = msgs.drop_last();
    assert(as_signals(msgs).drop_last() =~= as_signals(prev));
    lemma_below_threshold_held(max, prev);
    assert(prev.push(msgs.last()) =~= msgs);
    assert(Seq::<Seq<LogMessage>>::empty().push(msgs) =~= seq![msgs]);
}

/// With nothing pending, signals that carry no message send nothing and
/// leave the batch empty.
pub proof fn lemma_no_send_without_messages(max: nat, sigs: Seq<Signal>)
    requires
        forall|i: int| 0 <= i < sigs.len() ==> !(#[trigger] sigs[i] matches Signal::Received(
            LogEvent::Message(_),
        )),
    ensures
        run_batches(max, Seq::empty(), sigs) == (
        Seq::<LogMessage>::empty(),
        Seq::<Seq<LogMessage>>::empty(),
        ),
    decreases sigs.len(),
{
    if sigs.len() > 0 {
        let prev = sigs.drop_last();
        assert forall|i: int| 0 <= i < prev.len() implies !(#[trigger] prev[i] matches Signal::Received(
            LogEvent::Message(_),
        )) by {
            assert(prev[i] == sigs[i]);
        }
        lemma_no_send_without_messages(max, prev);
        assert(!(sigs[sigs.len() - 1] matches Signal::Received(LogEvent::Message(_))));
    }
}

/// An idle timeout with messages pending sends exactly those messages.
pub proof fn lemma_idle_timeout_sends_pending(max: nat, pending: Seq<LogMessage>)
    requires
        pending.len() > 0,
    ensures
        next_batch(max, pending, Signal::TimedOut) == (Seq::<LogMessage>::empty(), Some(pending)),
{
}

/// Closing the queue sends one final batch with what is pending, if anything
/// is, and nothing otherwise.
pub proof fn lemma_close_sends_final_batch(max: nat, pending: Seq<LogMessage>)
    ensures
        pending.len() > 0 ==> next_batch(max, pending, Signal::Closed) == (
        Seq::<LogMessage>::empty(),
        Some(pending),
        ),
        pending.len() == 0 ==> next_batch(max, pending, Signal::Closed) == (
        pending,
        None::<Seq<LogMessage>>,
        ),
{
}

/// An enqueue attempt on a full queue is reported as `QueueFull`, with the
/// event handed back.
pub proof fn lemma_full_queue_reported(event: LogEvent)
    ensures
        push_outcome_spec(Err(TrySendError::Full(event))) == Err::<(), PushError>(
            PushError::QueueFull(event),
        ),
{
}

/// Startup goes on in the same way whether the stream was just created or
/// existed before.
pub proof fn lemma_existing_stream_same_as_created<E>()
    ensures
        creation_result::<E>(StreamCreation::AlreadyExists) == creation_result::<E>(
            StreamCreation::Created,
        ),
        creation_result::<E>(StreamCreation::Created) == Ok::<(), E>(()),
{
}

/// Feeding two runs of signals one after the other gives the batches of the
/// first run followed by those of the second, started from what the first
/// left pending.
pub proof fn lemma_run_batches_append(
    max: nat,
    pending: Seq<LogMessage>,
    a: Seq<Signal>,
    b: Seq<Signal>,
)
    ensures
        ({
            let (pa, bsa) = run_batches(max, pending, a);
            let (pb, bsb) = run_batches(max, pa, b);
            run_batches(max, pending, a + b) == (pb, bsa + bsb)
        }),
    decreases b.len(),
{
    let (pa, bsa) = run_batches(max, pending, a);
    if b.len() == 0 {
        assert(a + b =~= a);
        assert(bsa + Seq::<Seq<LogMessage>>::empty() =~= bsa);
    } else {
        let prev = b.drop_last();
        lemma_run_batches_append(max, pending, a, prev);
        assert((a + b).drop_last() =~= a + prev);
        assert((a + b).last() == b.last());
        let (pp, bsp) = run_batches(max, pa, prev);
        let (p2, sent) = next_batch(max, pp, b.last());
        match sent {
            Some(x) => {
                assert((bsa + bsp).push(x) =~= bsa + bsp.push(x));
            },
            None => {},
        }
    }
}

/// A flush request with messages buffered sends them in a batch of their
/// own: every message received after the flush goes out in later batches,
/// never together with those buffered before it.
pub proof fn lemma_flush_separates_batches(max: nat, before: Seq<Signal>, after: Seq<Signal>)
    requires
        run_batches(max, Seq::empty(), before).0.len() > 0,
    ensures
        ({
            let (p1, bs1) = run_batches(max, Seq::empty(), before);
            let (p2, bs2) = run_batches(max, Seq::empty(), after);
            run_batches(max, Seq::empty(), before.push(Signal::Received(LogEvent::Flush)) + after)
                == (p2, bs1.push(p1) + bs2)
        }),
{
    let flush = Signal::Received(LogEvent::Flush);
    let (p1, bs1) = run_batches(max, Seq::empty(), before);
    assert(before.push(flush).drop_last() =~= before);
    assert(run_batches(max, Seq::empty(), before.push(flush)) == (Seq::<LogMessage>::empty(), bs1.push(p1)));
    lemma_run_batches_append(max, Seq::empty(), before.push(flush), after);
}

/// A shipper that has received exactly as many messages as its threshold,
/// with no flush request or idle gap, has sent them all in one batch, has
/// nothing pending and is still running.
pub proof fn lemma_shipper_full_batch(s: Shipper, msgs: Seq<LogMessage>)
    requires
        s.wf(),
        s.history() == as_signals(msgs),
        msgs.len() == s.max_spec(),
    ensures
        s.sent() == seq![msgs],
        s.pending() == Seq::<LogMessage>::empty(),
        !s.is_stopped(),
{
    lemma_shipper_delivers_in_order(s);
    if msgs.len() > 0 {
        assert(as_signals(msgs).last() == Signal::Received(LogEvent::Message(msgs.last())));
    }
    lemma_full_batch_sent_once(s.max_spec(), msgs);
}

} // verus!
