//! Bounded event queue between producer tasks and the idle consumer.
//!
//! The storage is heapless's fixed-capacity multi-producer multi-consumer
//! ring (`heapless::mpmc::Queue`), the same structure the firmware shares
//! between interrupt and idle context.  The wrappers here hold the queue
//! exclusively, so the contracts state its sequential behaviour: FIFO
//! order, and refusal — not loss — when all slots are occupied.  Enqueue
//! on a full queue is a capacity-planning fault that the caller must
//! decide on; dequeue on an empty queue is a normal "no event" poll.

use vstd::prelude::*;

use crate::events::Events;

verus! {

/// Number of event slots the queue holds.
pub const EVENT_QUEUE_CAPACITY: usize = 8;

/// The fixed-capacity event queue.  The ring itself lives behind this
/// opaque struct; its contents are spoken of through [`queue_contents`].
#[verifier::external_body]
pub struct EventQueue {
    queue: heapless::mpmc::Queue<Events, 8>,
}

/// The events the queue holds, oldest first.
pub uninterp spec fn queue_contents(q: EventQueue) -> Seq<Events>;

impl EventQueue {
    /// Relies on `heapless::mpmc::Queue::new`: a freshly constructed ring
    /// holds nothing.
    #[verifier::external_body]
    #[allow(deprecated)]
    pub fn new() -> (r: EventQueue)
        ensures
            queue_contents(r) == Seq::<Events>::empty(),
    {
        EventQueue { queue: heapless::mpmc::Queue::new() }
    }

    /// Relies on `heapless::mpmc::Queue::enqueue` (a bounded Vyukov ring):
    /// under the exclusive access held here it appends the event and
    /// reports acceptance exactly when a slot is free, and hands the event
    /// back, changing nothing, when all slots are occupied.
    #[verifier::external_body]
    pub fn enqueue(&mut self, event: Events) -> (accepted: bool)
        ensures
            accepted == (queue_contents(*old(self)).len() < EVENT_QUEUE_CAPACITY),
            accepted ==> queue_contents(*final(self)) == queue_contents(*old(self)).push(event),
            !accepted ==> queue_contents(*final(self)) == queue_contents(*old(self)),
    {
        self.queue.enqueue(event).is_ok()
    }

    /// Relies on `heapless::mpmc::Queue::dequeue`: under the exclusive
    /// access held here it removes and returns the oldest event, or
    /// returns nothing — a normal outcome, not an error — when the queue
    /// is empty.
    #[verifier::external_body]
    pub fn dequeue(&mut self) -> (r: Option<Events>)
        ensures
            queue_contents(*old(self)).len() == 0 ==> r is None && queue_contents(*final(self))
                == queue_contents(*old(self)),
            queue_contents(*old(self)).len() > 0 ==> r == Some(queue_contents(*old(self))[0])
                && queue_contents(*final(self)) == queue_contents(*old(self)).drop_first(),
    {
        self.queue.dequeue()
    }
}

} // verus!
