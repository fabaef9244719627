//! The bounded queue between a producer and a consumer.
//!
//! The streaming orchestrator writes its items into such a queue and the
//! response writer drains it. A full queue holds the producer back until an
//! item is taken; a closed queue tells the producer that the consumer is
//! gone; an ended queue tells the consumer that nothing more will come. The
//! queue itself waits for nothing: a runtime that suspends tasks is built
//! around `try_send` and `try_recv`.

use vstd::prelude::*;

verus! {

/// Why an item was not taken into the queue. The item comes back.
#[derive(Debug)]
pub enum SendError<T> {
    /// The queue is full: the producer has to wait for the consumer.
    Full(T),
    /// The consumer is gone, or the producer has ended the queue: nothing
    /// is taken in any more.
    Closed(T),
}

/// What the consumer gets from the queue.
#[derive(Debug)]
pub enum Received<T> {
    /// The oldest item.
    Item(T),
    /// Nothing yet: the consumer has to wait for the producer.
    Empty,
    /// Nothing, and nothing will come.
    Ended,
}

/// A queue of at most `capacity` items, first in, first out.
#[derive(Debug)]
pub struct BoundedQueue<T> {
    items: Vec<T>,
    capacity: usize,
    closed: bool,
    ended: bool,
}

impl<T> View for BoundedQueue<T> {
    type V = Seq<T>;

    /// The items in the queue, the oldest first.
    closed spec fn view(&self) -> Seq<T> {
        self.items@
    }
}

impl<T> BoundedQueue<T> {
    /// The number of items that the queue holds at most.
    pub closed spec fn capacity(&self) -> nat {
        self.capacity as nat
    }

    /// The consumer is gone.
    pub closed spec fn is_closed(&self) -> bool {
        self.closed
    }

    /// The producer has said that nothing more will come.
    pub closed spec fn is_ended(&self) -> bool {
        self.ended
    }

    /// The queue has room for an item and holds no more than it may.
    pub open spec fn wf(&self) -> bool {
        self.capacity() > 0 && self@.len() <= self.capacity()
    }

    /// The marks of the two queues are the same.
    pub open spec fn same_marks(&self, other: BoundedQueue<T>) -> bool {
        &&& self.capacity() == other.capacity()
        &&& self.is_closed() == other.is_closed()
        &&& self.is_ended() == other.is_ended()
    }

    /// An empty queue for at most `capacity` items.
    pub fn new(capacity: usize) -> (q: BoundedQueue<T>)
        requires
            capacity > 0,
        ensures
            q.wf(),
            q@ == Seq::<T>::empty(),
            q.capacity() == capacity,
            !q.is_closed(),
            !q.is_ended(),
    {
        BoundedQueue { items: Vec::new(), capacity, closed: false, ended: false }
    }

    /// The number of items in the queue.
    pub fn len(&self) -> (n: usize)
        ensures
            n == self@.len(),
    {
        self.items.len()
    }

    /// Whether the consumer is gone.
    pub fn closed(&self) -> (b: bool)
        ensures
            b == self.is_closed(),
    {
        self.closed
    }

    /// Puts an item behind the others. A queue that is closed or ended takes
    /// nothing, and a full queue takes nothing until an item has left it.
    pub fn try_send(&mut self, item: T) -> (r: Result<(), SendError<T>>)
        requires
            old(self).wf(),
        ensures
            final(self).wf(),
            final(self).same_marks(*old(self)),
            r == (if old(self).is_closed() || old(self).is_ended() {
                Err::<(), SendError<T>>(SendError::Closed(item))
            } else if old(self)@.len() == old(self).capacity() {
                Err::<(), SendError<T>>(SendError::Full(item))
            } else {
                Ok::<(), SendError<T>>(())
            }),
            final(self)@ == (if r is Ok {
                old(self)@.push(item)
            } else {
                old(self)@
            }),
    {
        if self.closed || self.ended {
            Err(SendError::Closed(item))
        } else if self.items.len() >= self.capacity {
            Err(SendError::Full(item))
        } else {
            self.items.push(item);
            Ok(())
        }
    }

    /// Takes the oldest item out of the queue. An empty queue says whether
    /// more may come.
    pub fn try_recv(&mut self) -> (r: Received<T>)
        requires
            old(self).wf(),
        ensures
            final(self).wf(),
            final(self).same_marks(*old(self)),
            r == (if old(self)@.len() > 0 {
                Received::Item(old(self)@[0])
            } else if old(self).is_ended() {
                Received::Ended
            } else {
                Received::Empty
            }),
            final(self)@ == (if old(self)@.len() > 0 {
                old(self)@.drop_first()
            } else {
                old(self)@
            }),
    {
        if self.items.len() > 0 {
            let item = self.items.remove(0);
            proof {
                assert(self.items@ =~= old(self).items@.drop_first());
            }
            Received::Item(item)
        } else if self.ended {
            Received::Ended
        } else {
            Received::Empty
        }
    }

    /// Marks the queue as ended: the producer will send nothing more. What
    /// the queue holds stays for the consumer.
    pub fn end(&mut self)
        requires
            old(self).wf(),
        ensures
            final(self).wf(),
            final(self).capacity() == old(self).capacity(),
            final(self).is_closed() == old(self).is_closed(),
            final(self).is_ended(),
            final(self)@ == old(self)@,
    {
        self.ended = true;
    }

    /// Marks the consumer as gone. What the queue holds is dropped, and
    /// nothing is taken in any more.
    pub fn close(&mut self)
        requires
            old(self).wf(),
        ensures
            final(self).wf(),
            final(self).capacity() == old(self).capacity(),
            final(self).is_ended() == old(self).is_ended(),
            final(self).is_closed(),
            final(self)@ == Seq::<T>::empty(),
    {
        self.closed = true;
        self.items.clear();
    }
}

} // verus!
