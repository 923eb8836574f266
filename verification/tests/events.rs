use recipe_scale::button::{ButtonEvent, Level};
use recipe_scale::event::{
    key_events, push_keys, wheel_event, InputEvent, Key, KeyAction, KeyEvent, Rotation,
};
use recipe_scale::interrupt::{InterruptResources, TIMER_PERIOD_MS};
use recipe_scale::main_loop::pending_keys;
use recipe_scale::queue::EventQueue;

fn pressed(key: Key) -> KeyEvent {
    KeyEvent { action: KeyAction::Pressed, key }
}

fn released(key: Key) -> KeyEvent {
    KeyEvent { action: KeyAction::Released, key }
}

#[test]
fn wheel_steps_map_to_wheel_events() {
    assert_eq!(wheel_event(Rotation::Clockwise), Some(InputEvent::WheelClockwise));
    assert_eq!(wheel_event(Rotation::CounterClockwise), Some(InputEvent::WheelCounterClockwise));
    assert_eq!(wheel_event(Rotation::Still), None);
}

#[test]
fn wheel_events_tap_the_arrow_keys() {
    assert_eq!(
        key_events(&vec![InputEvent::WheelClockwise]),
        vec![pressed(Key::UpArrow), released(Key::UpArrow)]
    );
    assert_eq!(
        key_events(&vec![InputEvent::WheelCounterClockwise]),
        vec![pressed(Key::DownArrow), released(Key::DownArrow)]
    );
}

#[test]
fn wheel_button_events_act_on_right_arrow_and_d() {
    let keys = key_events(&vec![
        InputEvent::WheelButton(ButtonEvent::Press),
        InputEvent::WheelButton(ButtonEvent::Release),
        InputEvent::WheelButton(ButtonEvent::LongPress),
        InputEvent::WheelButton(ButtonEvent::LongRelease),
    ]);
    assert_eq!(
        keys,
        vec![
            pressed(Key::RightArrow),
            released(Key::RightArrow),
            pressed(Key::Letter('d')),
            released(Key::Letter('d')),
        ]
    );
}

#[test]
fn back_button_events_act_on_left_arrow_and_b() {
    let keys = key_events(&vec![
        InputEvent::BackButton(ButtonEvent::Press),
        InputEvent::BackButton(ButtonEvent::Release),
        InputEvent::BackButton(ButtonEvent::LongPress),
        InputEvent::BackButton(ButtonEvent::LongRelease),
    ]);
    assert_eq!(
        keys,
        vec![
            pressed(Key::LeftArrow),
            released(Key::LeftArrow),
            pressed(Key::Letter('b')),
            released(Key::Letter('b')),
        ]
    );
}

#[test]
fn keys_keep_arrival_order() {
    let keys = key_events(&vec![
        InputEvent::BackButton(ButtonEvent::Press),
        InputEvent::WheelClockwise,
        InputEvent::WheelButton(ButtonEvent::LongPress),
        InputEvent::WheelCounterClockwise,
    ]);
    assert_eq!(
        keys,
        vec![
            pressed(Key::LeftArrow),
            pressed(Key::UpArrow),
            released(Key::UpArrow),
            pressed(Key::Letter('d')),
            pressed(Key::DownArrow),
            released(Key::DownArrow),
        ]
    );
    assert_eq!(key_events(&Vec::new()), Vec::new());
}

#[test]
fn push_keys_appends() {
    let mut keys = vec![pressed(Key::LeftArrow)];
    push_keys(&mut keys, InputEvent::WheelClockwise);
    push_keys(&mut keys, InputEvent::BackButton(ButtonEvent::Release));
    assert_eq!(
        keys,
        vec![
            pressed(Key::LeftArrow),
            pressed(Key::UpArrow),
            released(Key::UpArrow),
            released(Key::LeftArrow),
        ]
    );
}

#[test]
fn encoder_edge_enqueues_the_wheel_event() {
    let mut queue = EventQueue::new();
    {
        let (producer, _consumer) = queue.split();
        let mut resources = InterruptResources::new(producer);
        assert_eq!(resources.gpio_handler(Rotation::Clockwise), Some(InputEvent::WheelClockwise));
        assert_eq!(resources.gpio_handler(Rotation::Still), None);
        assert_eq!(
            resources.gpio_handler(Rotation::CounterClockwise),
            Some(InputEvent::WheelCounterClockwise)
        );
    }
    assert_eq!(
        queue.drain(),
        vec![InputEvent::WheelClockwise, InputEvent::WheelCounterClockwise]
    );
}

#[test]
fn timer_tick_samples_both_buttons_wheel_first() {
    let mut queue = EventQueue::new();
    {
        let (producer, _consumer) = queue.split();
        let mut resources = InterruptResources::new(producer);
        for _ in 0..5 {
            assert_eq!(resources.timer0_handler(Level::Low, Level::Low), (None, None));
        }
        assert_eq!(
            resources.timer0_handler(Level::Low, Level::Low),
            (
                Some(InputEvent::WheelButton(ButtonEvent::Press)),
                Some(InputEvent::BackButton(ButtonEvent::Press)),
            )
        );
        for _ in 0..5 {
            assert_eq!(resources.timer0_handler(Level::Low, Level::High), (None, None));
        }
        assert_eq!(
            resources.timer0_handler(Level::Low, Level::High),
            (None, Some(InputEvent::BackButton(ButtonEvent::Release)))
        );
    }
    assert_eq!(
        queue.drain(),
        vec![
            InputEvent::WheelButton(ButtonEvent::Press),
            InputEvent::BackButton(ButtonEvent::Press),
            InputEvent::BackButton(ButtonEvent::Release),
        ]
    );
}

#[test]
fn handlers_drop_events_when_the_queue_is_full() {
    let mut queue = EventQueue::new();
    {
        let (producer, _consumer) = queue.split();
        let mut resources = InterruptResources::new(producer);
        for _ in 0..20 {
            assert_eq!(resources.gpio_handler(Rotation::Clockwise), Some(InputEvent::WheelClockwise));
        }
        assert_eq!(
            resources.gpio_handler(Rotation::CounterClockwise),
            Some(InputEvent::WheelCounterClockwise)
        );
    }
    assert_eq!(queue.drain(), vec![InputEvent::WheelClockwise; 16]);
}

#[test]
fn main_loop_sees_pending_input_as_keys() {
    let mut queue = EventQueue::new();
    let (producer, mut consumer) = queue.split();
    let mut resources = InterruptResources::new(producer);
    resources.gpio_handler(Rotation::CounterClockwise);
    for _ in 0..6 {
        resources.timer0_handler(Level::High, Level::Low);
    }
    assert_eq!(
        pending_keys(&mut consumer),
        vec![pressed(Key::DownArrow), released(Key::DownArrow), pressed(Key::LeftArrow)]
    );
    assert_eq!(pending_keys(&mut consumer), Vec::new());
}

#[test]
fn buttons_are_sampled_every_five_milliseconds() {
    assert_eq!(TIMER_PERIOD_MS, 5);
}

fn assert_send<T: Send>(_: &T) {}

#[test]
fn interrupt_resources_can_move_into_interrupt_context() {
    let queue: &'static mut EventQueue = Box::leak(Box::new(EventQueue::new()));
    let (producer, mut consumer) = queue.split();
    let mut resources: InterruptResources<'static> = InterruptResources::new(producer);
    assert_send(&resources);
    assert_send(&consumer);
    resources.gpio_handler(Rotation::Clockwise);
    assert_eq!(consumer.dequeue(), Some(InputEvent::WheelClockwise));
    assert_eq!(consumer.dequeue(), None);
}
