//! What one iteration of the main loop makes of the pending input.

use crate::event::{key_events, keys_of, keys_of_all, InputEvent, KeyEvent};
use crate::queue::{EventConsumer, QUEUE_CAPACITY};
use vstd::prelude::*;

verus! {

/// Most key events one drain of the queue can amount to.
pub const MAX_PENDING_KEYS: usize = 32;

/// An input event stands for one key event or for two.
pub proof fn lemma_keys_per_event(event: InputEvent)
    ensures
        1 <= keys_of(event).len() <= 2,
{
}

/// The key events of a sequence are at least as many as its input events
/// and at most twice as many.
pub proof fn lemma_keys_bounded(events: Seq<InputEvent>)
    ensures
        events.len() <= keys_of_all(events).len() <= 2 * events.len(),
    decreases events.len(),
{
    if events.len() > 0 {
        lemma_keys_bounded(events.drop_last());
        lemma_keys_per_event(events.last());
    }
}

/// Key events keep arrival order: the key events of two runs of input, one
/// after the other, are the key events of the first followed by those of the
/// second.
pub proof fn law_keys_keep_order(first: Seq<InputEvent>, second: Seq<InputEvent>)
    ensures
        keys_of_all(first + second) == keys_of_all(first) + keys_of_all(second),
    decreases second.len(),
{
    if second.len() == 0 {
        assert(first + second =~= first);
        assert(keys_of_all(first) + keys_of_all(second) =~= keys_of_all(first));
    } else {
        law_keys_keep_order(first, second.drop_last());
        assert((first + second).drop_last() =~= first + second.drop_last());
        assert((first + second).last() == second.last());
        assert(keys_of_all(first + second) =~= keys_of_all(first) + keys_of_all(second));
    }
}

/// Drains the consuming end of the queue and turns what was pending
/// into key events for the display layer, in arrival order.
pub fn pending_keys(consumer: &mut EventConsumer<'_>) -> (keys: Vec<KeyEvent>)
    ensures
        old(consumer).taken().is_prefix_of(final(consumer).taken()),
        final(consumer).taken().len() - old(consumer).taken().len() <= QUEUE_CAPACITY,
        keys@ == keys_of_all(final(consumer).taken().skip(old(consumer).taken().len() as int)),
        keys@.len() <= MAX_PENDING_KEYS,
{
    let events = consumer.drain();
    proof {
        lemma_keys_bounded(events@);
        assert(consumer.taken().skip(old(consumer).taken().len() as int) =~= events@);
    }
    key_events(&events)
}

} // verus!
