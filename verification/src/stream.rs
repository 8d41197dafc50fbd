//! The message queue of one component.
//!
//! An [`EventStream`] is the unit of reactivity: an ordered, unbounded queue
//! of pending messages with a single logical consumer, the component's
//! dispatch loop. Emitting never blocks and never fails; there is no
//! back-pressure, a deliberate trade-off since blocking would freeze the one
//! thread that also runs the user interface. Emission order is delivery
//! order: the consumer always takes the oldest pending message first.
//!
//! The engine shares a queue by explicit ownership: the stream lives in its
//! [`crate::Component`], and every emitter reaches it through that owner,
//! so no hidden reference counting is needed to state who may write to it.

use vstd::prelude::*;

verus! {

/// An ordered, unbounded queue of pending messages, viewed as the sequence
/// of messages emitted but not yet consumed, oldest first.
pub struct EventStream<M> {
    pending: Vec<M>,
}

impl<M> View for EventStream<M> {
    type V = Seq<M>;

    closed spec fn view(&self) -> Seq<M> {
        self.pending@
    }
}

impl<M> EventStream<M> {
    /// An empty stream: nothing is pending.
    pub fn new() -> (s: EventStream<M>)
        ensures
            s@ == Seq::<M>::empty(),
    {
        EventStream { pending: Vec::new() }
    }

    /// How many messages are pending.
    pub fn len(&self) -> (n: usize)
        ensures
            n == self@.len(),
    {
        self.pending.len()
    }

    /// Whether nothing is pending.
    pub fn is_empty(&self) -> (b: bool)
        ensures
            b == (self@.len() == 0),
    {
        self.pending.len() == 0
    }

    /// Enqueues one message behind everything already pending. Never blocks
    /// and never fails; the queue is unbounded.
    pub fn emit(&mut self, message: M)
        ensures
            final(self)@ == old(self)@.push(message),
    {
        self.pending.push(message);
    }

    /// Enqueues a batch of messages in their given order, behind everything
    /// already pending.
    pub fn emit_all(&mut self, messages: Vec<M>)
        ensures
            final(self)@ == old(self)@ + messages@,
    {
        let mut rest = messages;
        self.pending.append(&mut rest);
    }

    /// Takes the oldest pending message, or nothing when the queue is empty:
    /// messages leave the stream in exactly the order they were emitted.
    pub fn pop(&mut self) -> (m: Option<M>)
        ensures
            old(self)@.len() == 0 ==> m is None && final(self)@ == old(self)@,
            old(self)@.len() > 0 ==> m == Some(old(self)@[0]) && final(self)@ == old(self)@.drop_first(),
    {
        if self.pending.len() == 0 {
            None
        } else {
            Some(self.pending.remove(0))
        }
    }
}

} // verus!
