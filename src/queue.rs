//! The delivery queue: a bounded first-in first-out queue of frame messages
//! from the capture side to the presentation side, with an explicit policy for
//! a full queue and an end-of-stream state once the producer has closed it.
use vstd::prelude::*;

use std::collections::VecDeque;

use crate::format::FrameMessage;

verus! {

/// What a push does when the queue is full.
#[derive(Clone, Copy, Debug, PartialEq, Eq, Structural)]
pub enum Overflow {
    /// The message is handed back; the producer waits and pushes it again.
    Block,
    /// The oldest queued message is discarded to make room.
    DropOldest,
}

/// The outcome of a push.
#[derive(Debug)]
pub enum Pushed {
    Queued,
    /// The oldest message was discarded to make room for this one.
    ReplacedOldest(FrameMessage),
    /// The queue is full and blocks: the message comes back to be pushed again.
    Full(FrameMessage),
    /// The queue was closed: the message is returned unsent.
    Closed(FrameMessage),
}

/// The outcome of a receive.
#[derive(Debug)]
pub enum Received {
    Frame(FrameMessage),
    /// Nothing queued yet; the producer is still running.
    Empty,
    /// Nothing queued and the producer has closed the queue.
    EndOfStream,
}

pub struct QueueView {
    pub items: Seq<FrameMessage>,
    pub capacity: nat,
    pub policy: Overflow,
    pub closed: bool,
}

impl QueueView {
    pub open spec fn wf(self) -> bool {
        &&& 1 <= self.capacity
        &&& self.items.len() <= self.capacity
        &&& forall|i: int| 0 <= i < self.items.len() ==> #[trigger] self.items[i].wf()
    }

    /// The queue after pushing `m`.
    pub open spec fn push(self, m: FrameMessage) -> QueueView {
        if self.closed {
            self
        } else if self.items.len() < self.capacity {
            QueueView { items: self.items.push(m), ..self }
        } else {
            match self.policy {
                Overflow::Block => self,
                Overflow::DropOldest => QueueView { items: self.items.drop_first().push(m), ..self },
            }
        }
    }

    /// The outcome of pushing `m`.
    pub open spec fn push_outcome(self, m: FrameMessage, r: Pushed) -> bool {
        if self.closed {
            r == Pushed::Closed(m)
        } else if self.items.len() < self.capacity {
            r == Pushed::Queued
        } else {
            match self.policy {
                Overflow::Block => r == Pushed::Full(m),
                Overflow::DropOldest => r == Pushed::ReplacedOldest(self.items[0]),
            }
        }
    }

    /// The queue after a receive.
    pub open spec fn pop(self) -> QueueView {
        if self.items.len() > 0 {
            QueueView { items: self.items.drop_first(), ..self }
        } else {
            self
        }
    }

    /// What a receive yields.
    pub open spec fn pop_outcome(self) -> Received {
        if self.items.len() > 0 {
            Received::Frame(self.items[0])
        } else if self.closed {
            Received::EndOfStream
        } else {
            Received::Empty
        }
    }
}

/// A bounded queue of frame messages.
pub struct DeliveryQueue {
    items: VecDeque<FrameMessage>,
    capacity: usize,
    policy: Overflow,
    closed: bool,
}

impl View for DeliveryQueue {
    type V = QueueView;

    closed spec fn view(&self) -> QueueView {
        QueueView {
            items: self.items@,
            capacity: self.capacity as nat,
            policy: self.policy,
            closed: self.closed,
        }
    }
}

impl DeliveryQueue {
    /// An open, empty queue that holds at most `capacity` messages.
    pub fn new(capacity: usize, policy: Overflow) -> (r: DeliveryQueue)
        requires
            capacity >= 1,
        ensures
            r@ == (QueueView { items: Seq::empty(), capacity: capacity as nat, policy, closed: false }),
            r@.wf(),
    {
        DeliveryQueue { items: VecDeque::with_capacity(capacity), capacity, policy, closed: false }
    }

    pub fn len(&self) -> (r: usize)
        ensures
            r == self@.items.len(),
    {
        self.items.len()
    }

    pub fn is_closed(&self) -> (r: bool)
        ensures
            r == self@.closed,
    {
        self.closed
    }

    /// Sends `m`, under the queue's policy when it is full.
    pub fn push(&mut self, m: FrameMessage) -> (r: Pushed)
        requires
            old(self)@.wf(),
            m.wf(),
        ensures
            final(self)@ == old(self)@.push(m),
            old(self)@.push_outcome(m, r),
            final(self)@.wf(),
    {
        if self.closed {
            return Pushed::Closed(m);
        }
        if self.items.len() < self.capacity {
            self.items.push_back(m);
            return Pushed::Queued;
        }
        match self.policy {
            Overflow::Block => Pushed::Full(m),
            Overflow::DropOldest => {
                let oldest = self.items.pop_front();
                self.items.push_back(m);
                match oldest {
                    Some(o) => Pushed::ReplacedOldest(o),
                    None => Pushed::Queued,
                }
            },
        }
    }

    /// Takes the oldest message, if there is one.
    pub fn pop(&mut self) -> (r: Received)
        requires
            old(self)@.wf(),
        ensures
            final(self)@ == old(self)@.pop(),
            r == old(self)@.pop_outcome(),
            final(self)@.wf(),
    {
        match self.items.pop_front() {
            Some(m) => Received::Frame(m),
            None => {
                if self.closed {
                    Received::EndOfStream
                } else {
                    Received::Empty
                }
            },
        }
    }

    /// Closes the queue: no more pushes; what is queued can still be received,
    /// after which receives yield end of stream.
    pub fn close(&mut self)
        requires
            old(self)@.wf(),
        ensures
            final(self)@ == (QueueView { closed: true, ..old(self)@ }),
            final(self)@.wf(),
    {
        self.closed = true;
    }
}

/// Round trip: a message sent on an open, empty queue is the next one
/// received, with the same format and payload, and it has the payload size its
/// format implies.
pub proof fn lemma_send_receive(q: QueueView, m: FrameMessage)
    requires
        q.wf(),
        !q.closed,
        q.items.len() == 0,
        m.wf(),
    ensures
        q.push(m).pop_outcome() == Received::Frame(m),
        q.push(m).wf(),
        q.push(m).pop().items.len() == 0,
{
}

/// Order is kept: sending a message that is queued does not change which
/// message is received next.
pub proof fn lemma_push_keeps_front(q: QueueView, m: FrameMessage)
    requires
        q.wf(),
        !q.closed,
        0 < q.items.len() < q.capacity,
    ensures
        q.push(m).pop_outcome() == q.pop_outcome(),
        q.push(m).pop() == q.pop().push(m),
{
    assert(q.push(m).pop().items =~= q.pop().push(m).items);
}

/// A closed queue hands out what it holds and then reports end of stream.
pub proof fn lemma_closed_drains_to_end(q: QueueView)
    requires
        q.wf(),
        q.closed,
        q.items.len() == 0,
    ensures
        q.pop_outcome() == Received::EndOfStream,
        q.pop() == q,
{
}

} // verus!
