//! The bounded queue that carries input events from the interrupt handlers
//! to the main loop, on the ring buffer of `heapless::spsc`.
//!
//! The ring itself is not verified here. What this module states of it is
//! taken from the crate's source and believed by the verifier.

use crate::event::InputEvent;
use heapless::spsc::{Consumer, Producer, Queue};
use vstd::prelude::*;

verus! {

/// Events the queue can buffer.
pub const QUEUE_CAPACITY: usize = 16;

/// Slots of the ring: it keeps one slot free to tell full from empty.
pub const RING_SLOTS: usize = 17;

/// `heapless::spsc::Queue`, opaque to the verifier.
#[verifier::external_type_specification]
#[verifier::external_body]
#[verifier::reject_recursive_types(T)]
pub struct ExQueue<T, const N: usize>(Queue<T, N>);

/// `heapless::spsc::Producer`, opaque to the verifier.
#[verifier::external_type_specification]
#[verifier::external_body]
#[verifier::reject_recursive_types(T)]
pub struct ExProducer<'a, T, const N: usize>(Producer<'a, T, N>);

/// `heapless::spsc::Consumer`, opaque to the verifier.
#[verifier::external_type_specification]
#[verifier::external_body]
#[verifier::reject_recursive_types(T)]
pub struct ExConsumer<'a, T, const N: usize>(Consumer<'a, T, N>);

/// The events a ring holds, oldest first.
pub uninterp spec fn ring_contents(ring: Queue<InputEvent, RING_SLOTS>) -> Seq<InputEvent>;

/// Calls `Queue::new`: an empty ring.
#[verifier::external_body]
fn ring_new() -> (ring: Queue<InputEvent, RING_SLOTS>)
    ensures
        ring_contents(ring) == Seq::<InputEvent>::empty(),
{
    Queue::new()
}

/// Calls `Queue::enqueue`: the event goes to the back of the ring unless
/// the ring already holds its capacity, in which case nothing changes.
#[verifier::external_body]
fn ring_enqueue(ring: &mut Queue<InputEvent, RING_SLOTS>, event: InputEvent) -> (accepted: bool)
    ensures
        accepted == (ring_contents(*old(ring)).len() < QUEUE_CAPACITY),
        ring_contents(*final(ring)) == if accepted {
            ring_contents(*old(ring)).push(event)
        } else {
            ring_contents(*old(ring))
        },
    no_unwind
{
    ring.enqueue(event).is_ok()
}

/// Calls `Queue::dequeue`: the oldest event leaves the ring and is
/// returned; an empty ring returns `None` and stays empty.
#[verifier::external_body]
fn ring_dequeue(ring: &mut Queue<InputEvent, RING_SLOTS>) -> (front: Option<InputEvent>)
    ensures
        front == if ring_contents(*old(ring)).len() == 0 {
            None
        } else {
            Some(ring_contents(*old(ring))[0])
        },
        ring_contents(*final(ring)) == if ring_contents(*old(ring)).len() == 0 {
            ring_contents(*old(ring))
        } else {
            ring_contents(*old(ring)).drop_first()
        },
    no_unwind
{
    ring.dequeue()
}

/// Calls `Queue::len`: the number of events in the ring.
#[verifier::external_body]
fn ring_len(ring: &Queue<InputEvent, RING_SLOTS>) -> (len: usize)
    ensures
        len == ring_contents(*ring).len(),
{
    ring.len()
}

/// Calls `Queue::split`: the two ends of the ring. Whatever is done through
/// them, the ring never holds more than its capacity when they are gone.
#[verifier::external_body]
fn ring_split<'a>(ring: &'a mut Queue<InputEvent, RING_SLOTS>) -> (ends: (
    Producer<'a, InputEvent, RING_SLOTS>,
    Consumer<'a, InputEvent, RING_SLOTS>,
))
    ensures
        ring_contents(*final(ring)).len() <= QUEUE_CAPACITY,
    no_unwind
{
    ring.split()
}

/// Calls `Producer::enqueue` and says whether the ring took the event. The
/// other end may run at any time, so nothing is promised of the answer.
#[verifier::external_body]
fn producer_enqueue(end: &mut Producer<'_, InputEvent, RING_SLOTS>, event: InputEvent) -> (accepted:
    bool) {
    end.enqueue(event).is_ok()
}

/// Calls `Consumer::dequeue`. The other end may run at any time, so nothing
/// is promised of the answer.
#[verifier::external_body]
fn consumer_dequeue(end: &mut Consumer<'_, InputEvent, RING_SLOTS>) -> (front: Option<InputEvent>) {
    end.dequeue()
}

/// Calls `Consumer::len`: a count of buffered events, never above the
/// ring's capacity.
#[verifier::external_body]
fn consumer_len(end: &Consumer<'_, InputEvent, RING_SLOTS>) -> (len: usize)
    ensures
        len <= QUEUE_CAPACITY,
{
    end.len()
}

/// The queue of input events, in the hands of a single owner.
pub struct EventQueue {
    ring: Queue<InputEvent, RING_SLOTS>,
}

impl View for EventQueue {
    type V = Seq<InputEvent>;

    closed spec fn view(&self) -> Seq<InputEvent> {
        ring_contents(self.ring)
    }
}

/// The queue after `event` is offered to it: appended if there is room,
/// dropped if not.
pub open spec fn offered(events: Seq<InputEvent>, event: InputEvent) -> Seq<InputEvent> {
    if events.len() < QUEUE_CAPACITY {
        events.push(event)
    } else {
        events
    }
}

/// The event that leaves the queue next, if it holds one.
pub open spec fn front_of(events: Seq<InputEvent>) -> Option<InputEvent> {
    if events.len() == 0 {
        None
    } else {
        Some(events[0])
    }
}

/// The queue after its oldest event, if any, has been taken out.
pub open spec fn without_front(events: Seq<InputEvent>) -> Seq<InputEvent> {
    if events.len() == 0 {
        events
    } else {
        events.drop_first()
    }
}

impl EventQueue {
    #[verifier::type_invariant]
    spec fn well_formed(self) -> bool {
        self@.len() <= QUEUE_CAPACITY
    }

    /// An empty queue.
    pub fn new() -> (queue: EventQueue)
        ensures
            queue@ == Seq::<InputEvent>::empty(),
    {
        EventQueue { ring: ring_new() }
    }

    /// Number of buffered events.
    pub fn len(&self) -> (len: usize)
        ensures
            len == self@.len(),
            len <= QUEUE_CAPACITY,
    {
        proof {
            use_type_invariant(self);
        }
        ring_len(&self.ring)
    }

    /// Whether nothing is buffered.
    pub fn is_empty(&self) -> (empty: bool)
        ensures
            empty == (self@.len() == 0),
    {
        self.len() == 0
    }

    /// Whether the next event offered would be dropped.
    pub fn is_full(&self) -> (full: bool)
        ensures
            full == (self@.len() == QUEUE_CAPACITY),
    {
        self.len() == QUEUE_CAPACITY
    }

    /// Offers an event to the queue without blocking. A full queue drops
    /// the event and keeps what it holds.
    pub fn enqueue(&mut self, event: InputEvent) -> (accepted: bool)
        ensures
            accepted == (old(self)@.len() < QUEUE_CAPACITY),
            final(self)@ == offered(old(self)@, event),
            final(self)@.len() <= QUEUE_CAPACITY,
    {
        proof {
            use_type_invariant(&*self);
        }
        ring_enqueue(&mut self.ring, event)
    }

    /// Takes the oldest event out of the queue without blocking.
    pub fn dequeue(&mut self) -> (front: Option<InputEvent>)
        ensures
            front == front_of(old(self)@),
            final(self)@ == without_front(old(self)@),
    {
        proof {
            use_type_invariant(&*self);
        }
        ring_dequeue(&mut self.ring)
    }

    /// Takes every buffered event out of the queue, oldest first.
    pub fn drain(&mut self) -> (events: Vec<InputEvent>)
        ensures
            events@ == old(self)@,
            final(self)@ == Seq::<InputEvent>::empty(),
    {
        let mut events: Vec<InputEvent> = Vec::new();
        let mut left: usize = self.len();
        while left > 0
            invariant
                left == self@.len(),
                events@ + self@ == old(self)@,
            decreases left,
        {
            match self.dequeue() {
                Some(event) => {
                    events.push(event);
                },
                None => {},
            }
            left -= 1;
            assert(events@ + self@ =~= old(self)@);
        }
        assert(events@ =~= events@ + self@);
        assert(self@ =~= Seq::<InputEvent>::empty());
        events
    }
}

/// The end of a split queue that the interrupt handlers write to.
pub struct EventProducer<'a> {
    end: Producer<'a, InputEvent, RING_SLOTS>,
    offers: Ghost<Seq<InputEvent>>,
}

/// The end of a split queue that the main loop reads from.
pub struct EventConsumer<'a> {
    end: Consumer<'a, InputEvent, RING_SLOTS>,
    taken: Ghost<Seq<InputEvent>>,
}

impl EventQueue {
    /// Splits the queue into its two ends, each with a single owner. While
    /// they live the queue itself cannot be touched.
    pub fn split(&mut self) -> (ends: (EventProducer<'_>, EventConsumer<'_>))
        ensures
            ends.0.offers() == Seq::<InputEvent>::empty(),
            ends.1.taken() == Seq::<InputEvent>::empty(),
            final(self)@.len() <= QUEUE_CAPACITY,
    {
        let (producer, consumer) = ring_split(&mut self.ring);
        (
            EventProducer { end: producer, offers: Ghost(Seq::empty()) },
            EventConsumer { end: consumer, taken: Ghost(Seq::empty()) },
        )
    }
}

impl<'a> EventProducer<'a> {
    /// Every event that was offered through this end, in order, whether the
    /// queue took it or not.
    pub closed spec fn offers(&self) -> Seq<InputEvent> {
        self.offers@
    }

    /// Offers an event to the queue without blocking, and says whether the
    /// queue took it. A full queue drops the event.
    pub fn enqueue(&mut self, event: InputEvent) -> (accepted: bool)
        ensures
            final(self).offers() == old(self).offers().push(event),
    {
        let accepted = producer_enqueue(&mut self.end, event);
        self.offers = Ghost(self.offers@.push(event));
        accepted
    }
}

impl<'a> EventConsumer<'a> {
    /// Every event that was taken out through this end, in order.
    pub closed spec fn taken(&self) -> Seq<InputEvent> {
        self.taken@
    }

    /// Takes the oldest event out of the queue without blocking, if the
    /// queue holds one.
    pub fn dequeue(&mut self) -> (front: Option<InputEvent>)
        ensures
            final(self).taken() == match front {
                Some(event) => old(self).taken().push(event),
                None => old(self).taken(),
            },
    {
        let front = consumer_dequeue(&mut self.end);
        match front {
            Some(event) => {
                self.taken = Ghost(self.taken@.push(event));
            },
            None => {},
        }
        front
    }

    /// Takes out, oldest first, the events that are buffered when the call
    /// begins. Events that arrive meanwhile wait for the next call.
    pub fn drain(&mut self) -> (events: Vec<InputEvent>)
        ensures
            events@.len() <= QUEUE_CAPACITY,
            final(self).taken() == old(self).taken() + events@,
    {
        let mut events: Vec<InputEvent> = Vec::new();
        let pending: usize = consumer_len(&self.end);
        assert(self.taken() =~= old(self).taken() + events@);
        while events.len() < pending
            invariant
                events@.len() <= pending <= QUEUE_CAPACITY,
                self.taken() == old(self).taken() + events@,
            decreases pending - events@.len(),
        {
            match self.dequeue() {
                Some(event) => {
                    events.push(event);
                    assert(self.taken() =~= old(self).taken() + events@);
                },
                None => {
                    break ;
                },
            }
        }
        events
    }
}

} // verus!
