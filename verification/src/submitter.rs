//! The transaction submitter's queue.
//!
//! A submitter accepts signed-transaction requests from exactly one
//! settlement worker and forwards them to the ledger asynchronously,
//! decoupled from the producer's timing.  The queue is first-in
//! first-out, so within one worker spends leave in the order usage was
//! accumulated.  Delivery is fire-and-forget: the consuming loop takes
//! a message off the queue before sending, and a send failure is logged
//! and the message discarded — nothing is ever re-queued and no
//! backpressure reaches the producer.

use vstd::prelude::*;

use crate::instruction::{InstructionView, Message};

verus! {

/// A single-producer queue of messages awaiting submission.
pub struct SubmitQueue {
    items: Vec<Message>,
}

impl View for SubmitQueue {
    type V = Seq<Seq<InstructionView>>;

    closed spec fn view(&self) -> Seq<Seq<InstructionView>> {
        self.items@.map_values(|m: Message| m@)
    }
}

impl SubmitQueue {
    /// An empty queue.
    pub fn new() -> (r: SubmitQueue)
        ensures
            r@ == Seq::<Seq<InstructionView>>::empty(),
    {
        let queue = SubmitQueue { items: Vec::new() };
        proof {
            assert(queue@ =~= Seq::<Seq<InstructionView>>::empty());
        }
        queue
    }

    /// How many messages are waiting.
    pub fn len(&self) -> (r: usize)
        ensures
            r == self@.len(),
    {
        self.items.len()
    }

    /// The producer appends a message at the back.
    pub fn enqueue(&mut self, message: Message)
        ensures
            final(self)@ == old(self)@.push(message@),
    {
        self.items.push(message);
        proof {
            assert(self@ =~= old(self)@.push(message@));
        }
    }

    /// The consumer takes the oldest message, if any; once taken it is
    /// the consumer's to send, and it never returns to the queue.
    pub fn dequeue(&mut self) -> (r: Option<Message>)
        ensures
            match r {
                Some(message) => {
                    &&& old(self)@.len() > 0
                    &&& message@ == old(self)@[0]
                    &&& final(self)@ == old(self)@.skip(1)
                },
                None => {
                    &&& old(self)@.len() == 0
                    &&& final(self)@ == old(self)@
                },
            },
    {
        if self.items.len() == 0 {
            return None;
        }
        let message = self.items.remove(0);
        proof {
            assert(self@ =~= old(self)@.skip(1));
        }
        Some(message)
    }
}

} // verus!
