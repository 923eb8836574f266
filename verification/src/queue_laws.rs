//! What holds of the event queue over whole sequences of offers.

use crate::event::InputEvent;
use crate::queue::{front_of, offered, without_front, QUEUE_CAPACITY};
use vstd::prelude::*;

verus! {

/// The queue after each event of `batch` has been offered to it in order.
pub open spec fn offered_all(events: Seq<InputEvent>, batch: Seq<InputEvent>) -> Seq<InputEvent>
    decreases batch.len(),
{
    if batch.len() == 0 {
        events
    } else {
        offered(offered_all(events, batch.drop_last()), batch.last())
    }
}

/// The queue after its `count` oldest events have been taken out.
pub open spec fn taken(events: Seq<InputEvent>, count: nat) -> Seq<InputEvent>
    decreases count,
{
    if count == 0 {
        events
    } else {
        without_front(taken(events, (count - 1) as nat))
    }
}

/// An offer never touches what is already buffered: the old contents stay
/// at the front, in place, and a full queue stays exactly as it was.
pub proof fn law_offer_keeps_buffered(events: Seq<InputEvent>, event: InputEvent)
    ensures
        events.is_prefix_of(offered(events, event)),
        events.len() >= QUEUE_CAPACITY ==> offered(events, event) == events,
        events.len() < QUEUE_CAPACITY ==> offered(events, event) == events.push(event),
{
}

/// Any number of offers leaves what was buffered at the front, in place, and
/// never grows the queue past its capacity.
pub proof fn law_offers_keep_buffered(events: Seq<InputEvent>, batch: Seq<InputEvent>)
    requires
        events.len() <= QUEUE_CAPACITY,
    ensures
        events.is_prefix_of(offered_all(events, batch)),
        offered_all(events, batch).len() <= QUEUE_CAPACITY,
    decreases batch.len(),
{
    if batch.len() > 0 {
        law_offers_keep_buffered(events, batch.drop_last());
    }
}

/// Offers that fit are all taken, in order: the queue then holds what it
/// held, followed by the batch.
pub proof fn law_offers_that_fit(events: Seq<InputEvent>, batch: Seq<InputEvent>)
    requires
        events.len() + batch.len() <= QUEUE_CAPACITY,
    ensures
        offered_all(events, batch) == events + batch,
    decreases batch.len(),
{
    if batch.len() == 0 {
        assert(events + batch =~= events);
    } else {
        law_offers_that_fit(events, batch.drop_last());
        assert(events + batch =~= (events + batch.drop_last()).push(batch.last()));
    }
}

/// Taking `count` events from a queue that holds at least as many removes
/// exactly its first `count`.
pub proof fn lemma_taken_is_skip(events: Seq<InputEvent>, count: nat)
    requires
        count <= events.len(),
    ensures
        taken(events, count) == events.skip(count as int),
    decreases count,
{
    if count == 0 {
        assert(events.skip(0) =~= events);
    } else {
        lemma_taken_is_skip(events, (count - 1) as nat);
        assert(events.skip(count - 1).drop_first() =~= events.skip(count as int));
    }
}

/// First in, first out: after a batch that fits has been offered to an
/// empty queue, the event that comes out `k`-th is the one that went in
/// `k`-th.
pub proof fn law_first_in_first_out(batch: Seq<InputEvent>, k: int)
    requires
        batch.len() <= QUEUE_CAPACITY,
        0 <= k < batch.len(),
    ensures
        front_of(taken(offered_all(Seq::empty(), batch), k as nat)) == Some(batch[k]),
{
    law_offers_that_fit(Seq::empty(), batch);
    assert(Seq::<InputEvent>::empty() + batch =~= batch);
    lemma_taken_is_skip(batch, k as nat);
}

} // verus!
