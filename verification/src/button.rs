//! A push-button behind a debounce filter, classified into press, release
//! and long-press events.

use crate::debounce::{
    all_samples, filter_is_high, filter_level, filter_samples, filter_update, new_filter, shift_in,
    Transition, DEBOUNCE_SAMPLES,
};
use debouncr::{DebouncerStateful, Repeat6};
use vstd::prelude::*;

verus! {

/// Ticks a button must be held, stable, before the hold counts as long.
pub const LONG_PRESS_TICKS: u8 = 100;

/// What a button did on one tick.
#[derive(Clone, Copy, Debug, PartialEq, Eq, Structural)]
pub enum ButtonEvent {
    Press,
    Release,
    LongPress,
    LongRelease,
}

/// The electrical level of an input pin.
#[derive(Clone, Copy, Debug, PartialEq, Eq, Structural)]
pub enum Level {
    Low,
    High,
}

impl Level {
    /// The buttons are wired with a pull-up: a low pin is a pressed button.
    pub open spec fn pressed(self) -> bool {
        self is Low
    }

    /// Whether this level means that the button is pressed.
    pub fn is_pressed(self) -> (pressed: bool)
        ensures
            pressed == self.pressed(),
    {
        match self {
            Level::Low => true,
            Level::High => false,
        }
    }
}

/// The change of level that `samples` amount to for a button that stands at
/// `level`: six pressed samples press a released button, six released ones
/// release a pressed button.
pub open spec fn accepted_edge(samples: Seq<bool>, level: bool) -> Option<Transition> {
    if all_samples(samples, true) && !level {
        Some(Transition::Rising)
    } else if all_samples(samples, false) && level {
        Some(Transition::Falling)
    } else {
        None
    }
}

/// The mathematical state of a button.
pub struct ButtonState {
    /// The last samples taken, oldest first; `true` is pressed.
    pub samples: Seq<bool>,
    /// The debounced level: `true` from an accepted press to the accepted
    /// release.
    pub level: bool,
    /// Stable pressed ticks counted since the last accepted press.
    pub held_for: nat,
}

impl ButtonState {
    /// The state of a button that has never been sampled.
    pub open spec fn initial() -> ButtonState {
        ButtonState {
            samples: Seq::new(DEBOUNCE_SAMPLES as nat, |i: int| false),
            level: false,
            held_for: 0,
        }
    }

    /// What holds of every state a button can be in.
    pub open spec fn valid(self) -> bool {
        &&& self.samples.len() == DEBOUNCE_SAMPLES
        &&& self.held_for <= u8::MAX
        &&& all_samples(self.samples, true) ==> self.level
        &&& all_samples(self.samples, false) ==> !self.level
    }

    /// The event of the tick on which `pressed` is sampled.
    pub open spec fn emits(self, pressed: bool) -> Option<ButtonEvent> {
        let samples = shift_in(self.samples, pressed);
        match accepted_edge(samples, self.level) {
            Some(Transition::Rising) => Some(ButtonEvent::Press),
            Some(Transition::Falling) => Some(
                if self.held_for > LONG_PRESS_TICKS {
                    ButtonEvent::LongRelease
                } else {
                    ButtonEvent::Release
                },
            ),
            None => if all_samples(samples, true) && self.held_for == LONG_PRESS_TICKS {
                Some(ButtonEvent::LongPress)
            } else {
                None
            },
        }
    }

    /// The state after the tick on which `pressed` is sampled.
    pub open spec fn next(self, pressed: bool) -> ButtonState {
        let samples = shift_in(self.samples, pressed);
        match accepted_edge(samples, self.level) {
            Some(Transition::Rising) => ButtonState { samples, level: true, held_for: 0 },
            Some(Transition::Falling) => ButtonState {
                samples,
                level: false,
                held_for: self.held_for,
            },
            None => ButtonState {
                samples,
                level: self.level,
                held_for: if all_samples(samples, true) && self.held_for < u8::MAX {
                    self.held_for + 1
                } else {
                    self.held_for
                },
            },
        }
    }
}

/// A debounced push-button.
pub struct Button {
    debouncer: DebouncerStateful<u8, Repeat6>,
    held_for: u8,
}

impl View for Button {
    type V = ButtonState;

    closed spec fn view(&self) -> ButtonState {
        ButtonState {
            samples: filter_samples(self.debouncer),
            level: filter_level(self.debouncer),
            held_for: self.held_for as nat,
        }
    }
}

impl Button {
    #[verifier::type_invariant]
    spec fn well_formed(self) -> bool {
        self@.valid()
    }

    /// A released button that has never been sampled.
    pub fn new() -> (button: Button)
        ensures
            button@ == ButtonState::initial(),
            button@.valid(),
    {
        let debouncer = new_filter();
        assert(!all_samples(filter_samples(debouncer), true)) by {
            assert(!filter_samples(debouncer)[0]);
        }
        Button { debouncer, held_for: 0 }
    }

    /// Takes the pin's level on one tick and says what the button did.
    pub fn update(&mut self, level: Level) -> (event: Option<ButtonEvent>)
        ensures
            old(self)@.valid(),
            final(self)@.valid(),
            final(self)@ == old(self)@.next(level.pressed()),
            event == old(self)@.emits(level.pressed()),
    {
        proof {
            use_type_invariant(&*self);
            assert forall|samples: Seq<bool>|
                samples.len() == DEBOUNCE_SAMPLES && #[trigger] all_samples(
                    samples,
                    true,
                ) implies !all_samples(samples, false) by {
                assert(samples[0]);
            }
        }
        let pressed = level.is_pressed();
        match filter_update(&mut self.debouncer, pressed) {
            Some(Transition::Rising) => {
                self.held_for = 0;
                Some(ButtonEvent::Press)
            },
            Some(Transition::Falling) => Some(
                if self.held_for > LONG_PRESS_TICKS {
                    ButtonEvent::LongRelease
                } else {
                    ButtonEvent::Release
                },
            ),
            None => if filter_is_high(&self.debouncer) {
                let before = self.held_for;
                if self.held_for < u8::MAX {
                    self.held_for = self.held_for + 1;
                }
                if before <= LONG_PRESS_TICKS && self.held_for > LONG_PRESS_TICKS {
                    Some(ButtonEvent::LongPress)
                } else {
                    None
                }
            } else {
                None
            },
        }
    }
}

} // verus!
