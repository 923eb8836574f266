//! What the two interrupt handlers decide: which events the encoder and the
//! buttons give rise to, and in which order they are offered to the queue.
//!
//! The handlers' callers read the hardware inside a critical section and
//! pass in what they read.

use crate::button::{Button, ButtonState, Level};
use crate::event::{
    back_button_event_of, wheel_button_event_of, wheel_event, wheel_event_of, InputEvent,
    Rotation,
};
use crate::queue::EventProducer;
use vstd::prelude::*;

verus! {

/// Period of the timer that samples the buttons, in milliseconds.
pub const TIMER_PERIOD_MS: u64 = 5;

/// The events among `first` and `second` that are there, `first` first.
pub open spec fn in_order(first: Option<InputEvent>, second: Option<InputEvent>) -> Seq<
    InputEvent,
> {
    let head = match first {
        Some(event) => seq![event],
        None => Seq::empty(),
    };
    match second {
        Some(event) => head.push(event),
        None => head,
    }
}

/// What the interrupt handlers share: both buttons and the producing end of
/// the event queue.
pub struct InterruptResources<'a> {
    producer: EventProducer<'a>,
    wheel_button: Button,
    back_button: Button,
}

impl<'a> InterruptResources<'a> {
    /// The state of the wheel's push-button.
    pub closed spec fn wheel_button(&self) -> ButtonState {
        self.wheel_button@
    }

    /// The state of the back button.
    pub closed spec fn back_button(&self) -> ButtonState {
        self.back_button@
    }

    /// Every event that the handlers have offered to the queue, in order.
    pub closed spec fn offers(&self) -> Seq<InputEvent> {
        self.producer.offers()
    }

    /// Resources with two buttons that have never been sampled.
    pub fn new(producer: EventProducer<'a>) -> (resources: InterruptResources<'a>)
        ensures
            resources.wheel_button() == ButtonState::initial(),
            resources.back_button() == ButtonState::initial(),
            resources.offers() == producer.offers(),
    {
        InterruptResources { producer, wheel_button: Button::new(), back_button: Button::new() }
    }

    /// Handles an edge on the encoder's phase pins: offers the queue the
    /// event for what the decoder saw, if it saw a step. Returns what was
    /// offered.
    pub fn gpio_handler(&mut self, rotation: Rotation) -> (offered: Option<InputEvent>)
        ensures
            offered == wheel_event_of(rotation),
            final(self).offers() == old(self).offers() + in_order(offered, None),
            final(self).wheel_button() == old(self).wheel_button(),
            final(self).back_button() == old(self).back_button(),
    {
        let event = wheel_event(rotation);
        match event {
            Some(e) => {
                let _ = self.producer.enqueue(e);
            },
            None => {},
        }
        assert(self.offers() =~= old(self).offers() + in_order(event, None));
        event
    }

    /// Handles a timer tick: samples both buttons and offers the queue what
    /// each of them did, the wheel's button first. Returns what was
    /// offered.
    pub fn timer0_handler(&mut self, wheel: Level, back: Level) -> (offered: (
        Option<InputEvent>,
        Option<InputEvent>,
    ))
        ensures
            final(self).wheel_button() == old(self).wheel_button().next(wheel.pressed()),
            final(self).back_button() == old(self).back_button().next(back.pressed()),
            offered.0 == wheel_button_event_of(old(self).wheel_button().emits(wheel.pressed())),
            offered.1 == back_button_event_of(old(self).back_button().emits(back.pressed())),
            final(self).offers() == old(self).offers() + in_order(offered.0, offered.1),
    {
        let first = match self.wheel_button.update(wheel) {
            Some(e) => Some(InputEvent::WheelButton(e)),
            None => None,
        };
        match first {
            Some(e) => {
                let _ = self.producer.enqueue(e);
            },
            None => {},
        }
        let second = match self.back_button.update(back) {
            Some(e) => Some(InputEvent::BackButton(e)),
            None => None,
        };
        match second {
            Some(e) => {
                let _ = self.producer.enqueue(e);
            },
            None => {},
        }
        assert(self.offers() =~= old(self).offers() + in_order(first, second));
        (first, second)
    }
}

} // verus!
