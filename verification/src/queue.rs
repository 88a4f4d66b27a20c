//! The control channel between schedulers and workers.
//!
//! The pool delivers work over an unbounded first-in first-out
//! multi-producer multi-consumer channel. The channel itself is a host
//! collaborator; required of it here is only its ordering: push appends at
//! the back, pop takes the front, so messages from a single producer are
//! never reordered. `MessageQueue` is that required behaviour, with pop
//! returning `None` where the real channel would block for a producer.

use vstd::prelude::*;

verus! {

/// A control message carried by the queue.
///
/// The real channel carries, with each task, the type-erased closure to
/// run and a reference to the wait group of the scope that submitted it;
/// both are host-side values, so a task travels here under an identifying
/// ticket instead.
#[derive(Clone, Copy, Debug, PartialEq, Eq, Structural)]
pub enum PoolMessage {
    /// Orderly-shutdown signal. A worker that pops it re-pushes it so the
    /// remaining workers see it too, then exits.
    Quit,
    /// One unit of work, identified by its ticket.
    Task(u64),
}

/// First-in first-out queue of control messages.
pub struct MessageQueue {
    items: Vec<PoolMessage>,
}

impl View for MessageQueue {
    type V = Seq<PoolMessage>;

    closed spec fn view(&self) -> Seq<PoolMessage> {
        self.items@
    }
}

impl MessageQueue {
    /// Create an empty queue.
    pub fn new() -> (q: MessageQueue)
        ensures
            q@ == Seq::<PoolMessage>::empty(),
    {
        MessageQueue { items: Vec::new() }
    }

    /// How many messages are queued.
    pub fn len(&self) -> (n: usize)
        ensures
            n == self@.len(),
    {
        self.items.len()
    }

    /// Append a message at the back. Push never fails and never blocks.
    pub fn push(&mut self, m: PoolMessage)
        ensures
            final(self)@ == old(self)@.push(m),
    {
        self.items.push(m);
    }

    /// Take the message at the front, the oldest one queued; every younger
    /// message keeps its relative position, so dequeue order equals
    /// enqueue order. Returns `None` on an empty queue, where the real
    /// channel would block until a producer pushes.
    pub fn pop(&mut self) -> (r: Option<PoolMessage>)
        ensures
            old(self)@.len() == 0 ==> r is None && final(self)@ == old(self)@,
            old(self)@.len() > 0 ==> r == Some(old(self)@[0]) && final(self)@ == old(self)@.subrange(
                1,
                old(self)@.len() as int,
            ),
    {
        if self.items.len() == 0 {
            None
        } else {
            Some(self.items.remove(0))
        }
    }
}

/// First-in first-out law: the queue never reorders the messages of a
/// producer. A message pushed earlier stands nearer the front than any
/// message pushed later — here, after pushing `a` and then `b` onto any
/// contents `q`, `a` keeps the earlier position — and `pop` always takes
/// the front while every remaining message keeps its relative position,
/// so any two messages are dequeued in the order they were enqueued.
pub proof fn lemma_fifo_order(q: Seq<PoolMessage>, a: PoolMessage, b: PoolMessage)
    ensures
        q.push(a).push(b).len() == q.len() + 2,
        q.push(a).push(b)[q.len() as int] == a,
        q.push(a).push(b)[q.len() as int + 1] == b,
        forall|i: int| 0 <= i < q.len() ==> q.push(a).push(b)[i] == q[i],
{
}

} // verus!
