use recipe_scale::button::ButtonEvent;
use recipe_scale::event::InputEvent;
use recipe_scale::queue::{EventQueue, QUEUE_CAPACITY};

fn sample_event(i: usize) -> InputEvent {
    match i % 6 {
        0 => InputEvent::WheelClockwise,
        1 => InputEvent::WheelCounterClockwise,
        2 => InputEvent::WheelButton(ButtonEvent::Press),
        3 => InputEvent::WheelButton(ButtonEvent::LongRelease),
        4 => InputEvent::BackButton(ButtonEvent::Release),
        _ => InputEvent::BackButton(ButtonEvent::LongPress),
    }
}

#[test]
fn new_queue_is_empty() {
    let mut queue = EventQueue::new();
    assert_eq!(queue.len(), 0);
    assert!(queue.is_empty());
    assert!(!queue.is_full());
    assert_eq!(queue.dequeue(), None);
    assert_eq!(queue.drain(), Vec::new());
}

#[test]
fn capacity_is_sixteen() {
    assert_eq!(QUEUE_CAPACITY, 16);
    let mut queue = EventQueue::new();
    for i in 0..16 {
        assert!(!queue.is_full());
        assert!(queue.enqueue(sample_event(i)));
        assert_eq!(queue.len(), i + 1);
    }
    assert!(queue.is_full());
}

#[test]
fn dequeue_order_is_enqueue_order() {
    let mut queue = EventQueue::new();
    for i in 0..QUEUE_CAPACITY {
        assert!(queue.enqueue(sample_event(i)));
    }
    for i in 0..QUEUE_CAPACITY {
        assert_eq!(queue.dequeue(), Some(sample_event(i)));
    }
    assert_eq!(queue.dequeue(), None);
}

#[test]
fn full_queue_drops_the_event_and_keeps_its_contents() {
    let mut queue = EventQueue::new();
    for i in 0..QUEUE_CAPACITY {
        assert!(queue.enqueue(sample_event(i)));
    }
    assert!(!queue.enqueue(InputEvent::BackButton(ButtonEvent::Press)));
    assert!(!queue.enqueue(InputEvent::WheelClockwise));
    assert_eq!(queue.len(), QUEUE_CAPACITY);
    let expected: Vec<InputEvent> = (0..QUEUE_CAPACITY).map(sample_event).collect();
    assert_eq!(queue.drain(), expected);
    assert!(queue.is_empty());
}

#[test]
fn room_returns_after_a_dequeue() {
    let mut queue = EventQueue::new();
    for i in 0..QUEUE_CAPACITY {
        assert!(queue.enqueue(sample_event(i)));
    }
    assert_eq!(queue.dequeue(), Some(sample_event(0)));
    assert!(queue.enqueue(InputEvent::WheelCounterClockwise));
    assert!(!queue.enqueue(InputEvent::WheelClockwise));
    let mut expected: Vec<InputEvent> = (1..QUEUE_CAPACITY).map(sample_event).collect();
    expected.push(InputEvent::WheelCounterClockwise);
    assert_eq!(queue.drain(), expected);
}

#[test]
fn order_survives_wrapping_around_the_ring() {
    let mut queue = EventQueue::new();
    let mut next_in = 0;
    let mut next_out = 0;
    for round in 0..50 {
        for _ in 0..(round % 7 + 1) {
            if queue.enqueue(sample_event(next_in)) {
                next_in += 1;
            } else {
                assert_eq!(queue.len(), QUEUE_CAPACITY);
            }
        }
        for _ in 0..(round % 5 + 1) {
            match queue.dequeue() {
                Some(event) => {
                    assert_eq!(event, sample_event(next_out));
                    next_out += 1;
                }
                None => assert_eq!(next_in, next_out),
            }
        }
        assert_eq!(queue.len(), next_in - next_out);
    }
}

#[test]
fn drain_empties_the_queue_in_order() {
    let mut queue = EventQueue::new();
    for i in 0..5 {
        assert!(queue.enqueue(sample_event(i)));
    }
    let expected: Vec<InputEvent> = (0..5).map(sample_event).collect();
    assert_eq!(queue.drain(), expected);
    assert_eq!(queue.len(), 0);
    assert_eq!(queue.drain(), Vec::new());
}

#[test]
fn split_ends_share_the_queue() {
    let mut queue = EventQueue::new();
    assert!(queue.enqueue(sample_event(0)));
    {
        let (mut producer, mut consumer) = queue.split();
        assert!(producer.enqueue(sample_event(1)));
        assert_eq!(consumer.dequeue(), Some(sample_event(0)));
        assert!(producer.enqueue(sample_event(2)));
        assert_eq!(consumer.dequeue(), Some(sample_event(1)));
        assert_eq!(consumer.dequeue(), Some(sample_event(2)));
        assert_eq!(consumer.dequeue(), None);
        assert!(producer.enqueue(sample_event(3)));
    }
    assert_eq!(queue.len(), 1);
    assert_eq!(queue.dequeue(), Some(sample_event(3)));
}

#[test]
fn producer_end_drops_what_does_not_fit() {
    let mut queue = EventQueue::new();
    let (mut producer, mut consumer) = queue.split();
    for i in 0..QUEUE_CAPACITY {
        assert!(producer.enqueue(sample_event(i)));
    }
    assert!(!producer.enqueue(InputEvent::WheelClockwise));
    let expected: Vec<InputEvent> = (0..QUEUE_CAPACITY).map(sample_event).collect();
    assert_eq!(consumer.drain(), expected);
    assert_eq!(consumer.drain(), Vec::new());
}
