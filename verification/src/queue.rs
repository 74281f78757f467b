//! The queue core: messages, the FIFO container, and its contracts.

use vstd::prelude::*;
use std::collections::VecDeque;

verus! {

/// A queued unit: an identifier handed out at insertion time together with
/// the producer-supplied payload. The identifier is an opaque 128-bit token;
/// the payload is never inspected or transformed by the queue.
pub struct Message {
    pub id: u128,
    pub payload: String,
}

/// The mathematical value of a [`Message`]: its identifier and the character
/// sequence of its payload.
pub ghost struct MessageView {
    pub id: u128,
    pub payload: Seq<char>,
}

impl View for Message {
    type V = MessageView;

    open spec fn view(&self) -> MessageView {
        MessageView { id: self.id, payload: self.payload@ }
    }
}

impl DeepView for Message {
    type V = MessageView;

    open spec fn deep_view(&self) -> MessageView {
        self@
    }
}

/// What appending a message does to a queue holding `s`: the message joins
/// the tail.
pub open spec fn enqueue_spec(s: Seq<MessageView>, m: MessageView) -> Seq<MessageView> {
    s.push(m)
}

/// What removing from a queue holding `s` yields: the remaining sequence and
/// the removed head, or the unchanged sequence and nothing when `s` is empty.
pub open spec fn dequeue_spec(s: Seq<MessageView>) -> (Seq<MessageView>, Option<MessageView>) {
    if s.len() == 0 {
        (s, None)
    } else {
        (s.drop_first(), Some(s[0]))
    }
}

/// The queue reached by enqueuing the messages of `ms`, in order, onto a
/// queue holding `s`.
pub open spec fn enqueue_all_spec(s: Seq<MessageView>, ms: Seq<MessageView>) -> Seq<MessageView>
    decreases ms.len(),
{
    if ms.len() == 0 {
        s
    } else {
        enqueue_all_spec(enqueue_spec(s, ms[0]), ms.drop_first())
    }
}

/// The message returned by the last of a run of `k + 1` dequeues on a queue
/// holding `s`, each applied to the queue the one before left.
pub open spec fn nth_dequeued(s: Seq<MessageView>, k: nat) -> Option<MessageView>
    decreases k,
{
    if k == 0 {
        dequeue_spec(s).1
    } else {
        nth_dequeued(dequeue_spec(s).0, (k - 1) as nat)
    }
}

/// Enqueuing a run of messages appends them, in order, to the sequence held.
pub proof fn lemma_enqueue_all_appends(s: Seq<MessageView>, ms: Seq<MessageView>)
    ensures
        enqueue_all_spec(s, ms) == s + ms,
    decreases ms.len(),
{
    if ms.len() == 0 {
        assert(s + ms =~= s);
    } else {
        lemma_enqueue_all_appends(enqueue_spec(s, ms[0]), ms.drop_first());
        assert(enqueue_spec(s, ms[0]) + ms.drop_first() =~= s + ms);
    }
}

/// A run of dequeues walks the sequence held, in order: on a queue holding
/// `s`, the dequeue at position `k` returns `s[k]`.
pub proof fn lemma_dequeues_walk_in_order(s: Seq<MessageView>, k: nat)
    requires
        k < s.len(),
    ensures
        nth_dequeued(s, k) == Some(s[k as int]),
    decreases k,
{
    if k > 0 {
        lemma_dequeues_walk_in_order(s.drop_first(), (k - 1) as nat);
    }
}

/// Once a queue holding `s` has given out all of `s`, every further dequeue
/// reports it empty.
pub proof fn lemma_dequeue_past_end(s: Seq<MessageView>, k: nat)
    requires
        k >= s.len(),
    ensures
        nth_dequeued(s, k) == None::<MessageView>,
    decreases k,
{
    if k > 0 {
        lemma_dequeue_past_end(dequeue_spec(s).0, (k - 1) as nat);
    }
}

/// First-in-first-out order. Enqueue calls whose executions do not overlap
/// enter the sequence in completion order, one `enqueue_spec` step each, so
/// a run of them starting from the empty queue builds exactly `ms`; this
/// lemma says the dequeue at position `k` then returns `ms[k]`: messages
/// leave in exactly the order they entered.
pub proof fn lemma_fifo_order(ms: Seq<MessageView>, k: nat)
    requires
        k < ms.len(),
    ensures
        nth_dequeued(enqueue_all_spec(Seq::empty(), ms), k) == Some(ms[k as int]),
{
    lemma_enqueue_all_appends(Seq::empty(), ms);
    assert(Seq::empty() + ms =~= ms);
    lemma_dequeues_walk_in_order(ms, k);
}

/// An enqueue followed immediately by a dequeue, with no other activity on
/// the queue, gives back the very message just submitted — identifier and
/// payload — and leaves the queue as it was. It holds of the empty queue
/// alone: with an older message still held, that message leaves first.
pub proof fn lemma_enqueue_then_dequeue(s: Seq<MessageView>, m: MessageView)
    requires
        s.len() == 0,
    ensures
        dequeue_spec(enqueue_spec(s, m)).1 == Some(m),
        dequeue_spec(enqueue_spec(s, m)).0 == s,
{
    assert(enqueue_spec(s, m).drop_first() =~= s);
}

/// Draining returns every message exactly once: after the messages of `ms`
/// have been enqueued onto an empty queue — in whatever interleaving, once
/// the lock has linearised them into the sequence `ms` — the first
/// `ms.len()` dequeues return the messages of `ms`, the one at position `k`
/// returning `ms[k]` and no other, and the next dequeue reports the queue
/// empty.
pub proof fn lemma_drain_exact(ms: Seq<MessageView>)
    ensures
        forall|k: nat|
            k < ms.len() ==> #[trigger] nth_dequeued(enqueue_all_spec(Seq::empty(), ms), k)
                == Some(ms[k as int]),
        nth_dequeued(enqueue_all_spec(Seq::empty(), ms), ms.len()) == None::<MessageView>,
{
    assert forall|k: nat| k < ms.len() implies #[trigger] nth_dequeued(
        enqueue_all_spec(Seq::empty(), ms),
        k,
    ) == Some(ms[k as int]) by {
        lemma_fifo_order(ms, k);
    }
    lemma_enqueue_all_appends(Seq::empty(), ms);
    assert(Seq::empty() + ms =~= ms);
    lemma_dequeue_past_end(ms, ms.len());
}

/// A first-in-first-out queue of messages. Its view is the sequence of
/// messages enqueued and not yet dequeued, oldest first.
pub struct MessageQueue {
    queue: VecDeque<Message>,
}

impl View for MessageQueue {
    type V = Seq<MessageView>;

    closed spec fn view(&self) -> Seq<MessageView> {
        self.queue.deep_view()
    }
}

impl MessageQueue {
    /// Creates an empty queue.
    pub fn new() -> (q: MessageQueue)
        ensures
            q@ =~= Seq::<MessageView>::empty(),
    {
        MessageQueue { queue: VecDeque::new() }
    }

    /// The number of messages currently held.
    pub fn len(&self) -> (n: usize)
        ensures
            n == self@.len(),
    {
        self.queue.len()
    }

    /// Appends a message holding `payload` under a freshly drawn identifier
    /// and returns that identifier. Always succeeds: the queue is unbounded.
    pub fn enqueue(&mut self, payload: String) -> (id: u128)
        ensures
            final(self)@ == enqueue_spec(old(self)@, MessageView { id, payload: payload@ }),
    {
        let id = crate::ids::fresh_id();
        let message = Message { id, payload };
        self.queue.push_back(message);
        proof {
            assert(self@ =~= old(self)@.push(message@));
        }
        id
    }

    /// Removes and returns the message at the head, oldest first; on an
    /// empty queue returns `None` and leaves the queue unchanged.
    pub fn dequeue(&mut self) -> (r: Option<Message>)
        ensures
            final(self)@ == dequeue_spec(old(self)@).0,
            match r {
                Some(m) => old(self)@.len() > 0 && Some(m@) == dequeue_spec(old(self)@).1,
                None => old(self)@.len() == 0,
            },
    {
        let r = self.queue.pop_front();
        proof {
            if old(self).queue@.len() > 0 {
                assert(self@ =~= old(self)@.drop_first());
            }
        }
        r
    }
}

} // verus!
