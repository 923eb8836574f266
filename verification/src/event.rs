//! The input events that travel from the interrupt handlers to the main
//! loop, and the key events the display layer receives for them.

use crate::button::ButtonEvent;
use vstd::prelude::*;

verus! {

/// One classified input, as produced in interrupt context.
#[derive(Clone, Copy, Debug, PartialEq, Eq, Structural)]
pub enum InputEvent {
    WheelClockwise,
    WheelCounterClockwise,
    WheelButton(ButtonEvent),
    BackButton(ButtonEvent),
}

/// What the quadrature decoder made of one edge on its phase pins.
#[derive(Clone, Copy, Debug, PartialEq, Eq, Structural)]
pub enum Rotation {
    Clockwise,
    CounterClockwise,
    Still,
}

/// A key of the display layer.
#[derive(Clone, Copy, Debug, PartialEq, Eq, Structural)]
pub enum Key {
    UpArrow,
    DownArrow,
    LeftArrow,
    RightArrow,
    Letter(char),
}

/// Whether a key goes down or comes up.
#[derive(Clone, Copy, Debug, PartialEq, Eq, Structural)]
pub enum KeyAction {
    Pressed,
    Released,
}

/// A key event to dispatch to the display layer.
#[derive(Clone, Copy, Debug, PartialEq, Eq, Structural)]
pub struct KeyEvent {
    pub action: KeyAction,
    pub key: Key,
}

/// The letter a long press of the wheel button types.
pub const WHEEL_LONG_KEY: char = 'd';

/// The letter a long press of the back button types.
pub const BACK_LONG_KEY: char = 'b';

/// The event a step of the wheel stands for, if any.
pub open spec fn wheel_event_of(rotation: Rotation) -> Option<InputEvent> {
    match rotation {
        Rotation::Clockwise => Some(InputEvent::WheelClockwise),
        Rotation::CounterClockwise => Some(InputEvent::WheelCounterClockwise),
        Rotation::Still => None,
    }
}

/// The input event for what the wheel button did, if it did anything.
pub open spec fn wheel_button_event_of(event: Option<ButtonEvent>) -> Option<InputEvent> {
    match event {
        Some(e) => Some(InputEvent::WheelButton(e)),
        None => None,
    }
}

/// The input event for what the back button did, if it did anything.
pub open spec fn back_button_event_of(event: Option<ButtonEvent>) -> Option<InputEvent> {
    match event {
        Some(e) => Some(InputEvent::BackButton(e)),
        None => None,
    }
}

/// The key a button event acts on: short presses use `short`, long ones type
/// `long`.
pub open spec fn button_key(event: ButtonEvent, short: Key, long: char) -> KeyEvent {
    match event {
        ButtonEvent::Press => KeyEvent { action: KeyAction::Pressed, key: short },
        ButtonEvent::Release => KeyEvent { action: KeyAction::Released, key: short },
        ButtonEvent::LongPress => KeyEvent { action: KeyAction::Pressed, key: Key::Letter(long) },
        ButtonEvent::LongRelease => KeyEvent {
            action: KeyAction::Released,
            key: Key::Letter(long),
        },
    }
}

/// A key going down and coming up at once.
pub open spec fn tap(key: Key) -> Seq<KeyEvent> {
    seq![
        KeyEvent { action: KeyAction::Pressed, key },
        KeyEvent { action: KeyAction::Released, key },
    ]
}

/// The key events one input event stands for, in dispatch order.
pub open spec fn keys_of(event: InputEvent) -> Seq<KeyEvent> {
    match event {
        InputEvent::WheelClockwise => tap(Key::UpArrow),
        InputEvent::WheelCounterClockwise => tap(Key::DownArrow),
        InputEvent::WheelButton(e) => seq![button_key(e, Key::RightArrow, WHEEL_LONG_KEY)],
        InputEvent::BackButton(e) => seq![button_key(e, Key::LeftArrow, BACK_LONG_KEY)],
    }
}

/// The key events a sequence of input events stands for, in arrival order.
pub open spec fn keys_of_all(events: Seq<InputEvent>) -> Seq<KeyEvent>
    decreases events.len(),
{
    if events.len() == 0 {
        Seq::empty()
    } else {
        keys_of_all(events.drop_last()) + keys_of(events.last())
    }
}

/// Maps a step of the wheel to its input event.
pub fn wheel_event(rotation: Rotation) -> (event: Option<InputEvent>)
    ensures
        event == wheel_event_of(rotation),
{
    match rotation {
        Rotation::Clockwise => Some(InputEvent::WheelClockwise),
        Rotation::CounterClockwise => Some(InputEvent::WheelCounterClockwise),
        Rotation::Still => None,
    }
}

fn button_key_event(event: ButtonEvent, short: Key, long: char) -> (key: KeyEvent)
    ensures
        key == button_key(event, short, long),
{
    match event {
        ButtonEvent::Press => KeyEvent { action: KeyAction::Pressed, key: short },
        ButtonEvent::Release => KeyEvent { action: KeyAction::Released, key: short },
        ButtonEvent::LongPress => KeyEvent { action: KeyAction::Pressed, key: Key::Letter(long) },
        ButtonEvent::LongRelease => KeyEvent {
            action: KeyAction::Released,
            key: Key::Letter(long),
        },
    }
}

/// Appends to `keys` the key events that `event` stands for.
pub fn push_keys(keys: &mut Vec<KeyEvent>, event: InputEvent)
    ensures
        final(keys)@ == old(keys)@ + keys_of(event),
{
    match event {
        InputEvent::WheelClockwise => {
            keys.push(KeyEvent { action: KeyAction::Pressed, key: Key::UpArrow });
            keys.push(KeyEvent { action: KeyAction::Released, key: Key::UpArrow });
        },
        InputEvent::WheelCounterClockwise => {
            keys.push(KeyEvent { action: KeyAction::Pressed, key: Key::DownArrow });
            keys.push(KeyEvent { action: KeyAction::Released, key: Key::DownArrow });
        },
        InputEvent::WheelButton(e) => {
            keys.push(button_key_event(e, Key::RightArrow, WHEEL_LONG_KEY));
        },
        InputEvent::BackButton(e) => {
            keys.push(button_key_event(e, Key::LeftArrow, BACK_LONG_KEY));
        },
    }
    assert(keys@ =~= old(keys)@ + keys_of(event));
}

/// Turns drained input events into key events, keeping their order.
pub fn key_events(events: &Vec<InputEvent>) -> (keys: Vec<KeyEvent>)
    ensures
        keys@ == keys_of_all(events@),
{
    let mut keys: Vec<KeyEvent> = Vec::new();
    let mut i: usize = 0;
    while i < events.len()
        invariant
            i <= events.len(),
            keys@ == keys_of_all(events@.take(i as int)),
        decreases events.len() - i,
    {
        push_keys(&mut keys, events[i]);
        assert(events@.take(i + 1).drop_last() =~= events@.take(i as int));
        i += 1;
    }
    assert(events@.take(i as int) =~= events@);
    keys
}

} // verus!
