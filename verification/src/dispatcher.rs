//! Event dispatch: typed events, the tagged response variant handed to the
//! caller, and the bounded inbound queue with its non-blocking drain.
//!
//! The queue models the single-producer/single-consumer buffer between the
//! transport's read loop and the caller's poll loop. Its backpressure policy
//! is explicit: when the buffer is full, the oldest queued response is
//! dropped to make room for the newest.

use vstd::prelude::*;

verus! {

/// A decoded server-pushed event, immutable once produced; ownership moves
/// to the caller on drain.
#[derive(Debug)]
pub enum Event {
    /// A chat message with its sender and text.
    ChatMessage { chatter: String, text: String },
    /// A new follower.
    Follow { follower: String },
    /// An incoming raid with its source channel and viewer count.
    Raid { from: String, viewers: u64 },
    /// The broadcast went live.
    StreamOnline,
    /// The broadcast ended.
    StreamOffline,
}

/// What one drained element means to the caller.
#[derive(Debug)]
pub enum ResponseType {
    /// A decoded event frame.
    Event(Event),
    /// The server asked for the socket to be closed.
    Close,
    /// A frame this layer does not understand; passed through, not dropped.
    Unknown,
}

/// The bounded inbound queue of responses awaiting the caller.
pub struct EventQueue {
    items: Vec<ResponseType>,
    capacity: usize,
}

impl EventQueue {
    /// The queued responses, oldest first.
    pub closed spec fn view(&self) -> Seq<ResponseType> {
        self.items@
    }

    /// The bound the queue was created with.
    pub closed spec fn spec_capacity(&self) -> nat {
        self.capacity as nat
    }

    /// The queue never holds more than its bound.
    pub open spec fn wf(&self) -> bool {
        self@.len() <= self.spec_capacity() && self.spec_capacity() >= 1
    }

    /// An empty queue with the given bound.
    pub fn new(capacity: usize) -> (q: EventQueue)
        requires
            capacity >= 1,
        ensures
            q@ == Seq::<ResponseType>::empty(),
            q.spec_capacity() == capacity,
            q.wf(),
    {
        EventQueue { items: Vec::new(), capacity }
    }

    /// How many responses are queued.
    pub fn len(&self) -> (n: usize)
        ensures
            n == self@.len(),
    {
        self.items.len()
    }

    /// Enqueues one response at the back. When the queue is full the oldest
    /// queued response is dropped first: the producer never blocks and the
    /// newest data is kept, by explicit policy.
    pub fn push(&mut self, r: ResponseType)
        requires
            old(self).wf(),
        ensures
            final(self).wf(),
            final(self).spec_capacity() == old(self).spec_capacity(),
            old(self)@.len() < old(self).spec_capacity() ==> final(self)@ == old(self)@.push(r),
            old(self)@.len() >= old(self).spec_capacity() ==> final(self)@ == old(
                self,
            )@.subrange(1, old(self)@.len() as int).push(r),
    {
        if self.items.len() >= self.capacity {
            self.items.remove(0);
        }
        self.items.push(r);
    }

    /// Hands every queued response to the caller, oldest first, leaving the
    /// queue empty. The order is exactly the order the transport delivered
    /// them in: no reordering, no deduplication. The timeout bounds how long
    /// a driver may wait for new data before the call returns; the queue
    /// itself never blocks, so an empty queue yields an empty sequence at
    /// once whatever the timeout says.
    pub fn drain(&mut self, _timeout_ms: u64) -> (evs: Vec<ResponseType>)
        ensures
            evs@ == old(self)@,
            final(self)@ == Seq::<ResponseType>::empty(),
            final(self).spec_capacity() == old(self).spec_capacity(),
    {
        let mut out: Vec<ResponseType> = Vec::new();
        core::mem::swap(&mut out, &mut self.items);
        out
    }
}

} // verus!
