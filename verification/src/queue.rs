//! The job queue: a first-in, first-out channel of messages with a sending
//! side that can be closed and a count of receivers that can fall to zero.
//!
//! The queue never blocks. Where a blocking receive would wait, it says so,
//! and the caller waits and asks again.

use crate::message::{Closed, Message};
use std::collections::VecDeque;
use vstd::prelude::*;

verus! {

/// An unbounded first-in, first-out queue of messages.
pub struct JobQueue<J> {
    items: VecDeque<Message<J>>,
    consumers: usize,
    open: bool,
}

impl<J> View for JobQueue<J> {
    type V = Seq<Message<J>>;

    /// The queued messages, oldest first.
    closed spec fn view(&self) -> Seq<Message<J>> {
        self.items@
    }
}

impl<J> JobQueue<J> {
    pub closed spec fn spec_consumers(&self) -> usize {
        self.consumers
    }

    pub closed spec fn spec_is_open(&self) -> bool {
        self.open
    }

    /// Whether a send is taken: the sending side is open and a receiver is
    /// left.
    pub open spec fn accepts(&self) -> bool {
        self.is_open() && self.consumers() > 0
    }

    /// What a receive yields: the oldest message; or nothing yet, while the
    /// sending side is open; or `Closed`, once it is closed and the queue is
    /// drained.
    pub open spec fn next(&self) -> Result<Option<Message<J>>, Closed> {
        if self@.len() > 0 {
            Ok(Some(self@[0]))
        } else if self.is_open() {
            Ok(None)
        } else {
            Err(Closed)
        }
    }

    /// An empty queue whose sending side is open, with `consumers`
    /// receivers attached.
    pub fn new(consumers: usize) -> (queue: Self)
        ensures
            queue@ == Seq::<Message<J>>::empty(),
            queue.consumers() == consumers,
            queue.is_open(),
    {
        JobQueue { items: VecDeque::new(), consumers, open: true }
    }

    /// Puts `item` at the back of the queue. Fails with `Closed`, and drops
    /// the item, when no receiver is left or the sending side is closed.
    pub fn send(&mut self, item: Message<J>) -> (sent: Result<(), Closed>)
        ensures
            sent is Ok <==> old(self).accepts(),
            final(self)@ == if old(self).accepts() {
                old(self)@.push(item)
            } else {
                old(self)@
            },
            final(self).consumers() == old(self).consumers(),
            final(self).is_open() == old(self).is_open(),
    {
        if self.open && self.consumers > 0 {
            self.items.push_back(item);
            Ok(())
        } else {
            Err(Closed)
        }
    }

    /// Takes the oldest message off the queue. `Ok(None)` says that the
    /// queue is empty for now; `Err(Closed)` that it is empty for good.
    pub fn try_receive(&mut self) -> (received: Result<Option<Message<J>>, Closed>)
        ensures
            received == old(self).next(),
            final(self)@ == if old(self)@.len() > 0 {
                old(self)@.skip(1)
            } else {
                old(self)@
            },
            final(self).consumers() == old(self).consumers(),
            final(self).is_open() == old(self).is_open(),
    {
        match self.items.pop_front() {
            Some(item) => Ok(Some(item)),
            None => if self.open {
                Ok(None)
            } else {
                Err(Closed)
            },
        }
    }

    /// Detaches one receiver. With none attached, nothing changes.
    pub fn detach_consumer(&mut self)
        ensures
            final(self).consumers() == if old(self).consumers() > 0 {
                old(self).consumers() - 1
            } else {
                0
            },
            final(self)@ == old(self)@,
            final(self).is_open() == old(self).is_open(),
    {
        if self.consumers > 0 {
            self.consumers = self.consumers - 1;
        }
    }

    /// Closes the sending side. What is queued can still be received.
    pub fn close(&mut self)
        ensures
            !final(self).is_open(),
            final(self)@ == old(self)@,
            final(self).consumers() == old(self).consumers(),
    {
        self.open = false;
    }

    /// The number of queued messages.
    pub fn len(&self) -> (len: usize)
        ensures
            len == self@.len(),
    {
        self.items.len()
    }

    /// Whether nothing is queued.
    pub fn is_empty(&self) -> (empty: bool)
        ensures
            empty == (self@.len() == 0),
    {
        self.items.len() == 0
    }

    /// The number of receivers attached.
    #[verifier::when_used_as_spec(spec_consumers)]
    pub fn consumers(&self) -> (consumers: usize)
        ensures
            consumers == self.consumers(),
    {
        self.consumers
    }

    /// Whether the sending side is open.
    #[verifier::when_used_as_spec(spec_is_open)]
    pub fn is_open(&self) -> (open: bool)
        ensures
            open == self.is_open(),
    {
        self.open
    }
}

} // verus!
