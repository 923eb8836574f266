use recipe_scale::button::{Button, ButtonEvent, Level, LONG_PRESS_TICKS};

fn feed(button: &mut Button, level: Level, ticks: usize) -> Vec<Option<ButtonEvent>> {
    let mut events = Vec::new();
    for _ in 0..ticks {
        events.push(button.update(level));
    }
    events
}

fn pressed_button() -> Button {
    let mut button = Button::new();
    let events = feed(&mut button, Level::Low, 6);
    assert_eq!(events[5], Some(ButtonEvent::Press));
    button
}

#[test]
fn press_comes_with_the_sixth_low_sample() {
    let mut button = Button::new();
    let mut events = feed(&mut button, Level::Low, 6);
    events.extend(feed(&mut button, Level::High, 6));
    let mut expected = vec![None; 12];
    expected[5] = Some(ButtonEvent::Press);
    expected[11] = Some(ButtonEvent::Release);
    assert_eq!(events, expected);
}

#[test]
fn five_low_samples_are_not_a_press() {
    let mut button = Button::new();
    assert_eq!(feed(&mut button, Level::Low, 5), vec![None; 5]);
    assert_eq!(button.update(Level::High), None);
    assert_eq!(feed(&mut button, Level::Low, 5), vec![None; 5]);
    assert_eq!(button.update(Level::Low), Some(ButtonEvent::Press));
}

#[test]
fn idle_button_stays_silent() {
    let mut button = Button::new();
    assert_eq!(feed(&mut button, Level::High, 300), vec![None; 300]);
}

#[test]
fn bouncing_input_gives_no_event() {
    let mut button = Button::new();
    for _ in 0..100 {
        assert_eq!(feed(&mut button, Level::Low, 3), vec![None; 3]);
        assert_eq!(feed(&mut button, Level::High, 2), vec![None; 2]);
    }
}

#[test]
fn long_press_is_emitted_once() {
    let mut button = pressed_button();
    let ticks = LONG_PRESS_TICKS as usize + 1;
    let mut expected = vec![None; ticks];
    expected[ticks - 1] = Some(ButtonEvent::LongPress);
    assert_eq!(feed(&mut button, Level::Low, ticks), expected);
    assert_eq!(feed(&mut button, Level::Low, 400), vec![None; 400]);
    let mut release = vec![None; 6];
    release[5] = Some(ButtonEvent::LongRelease);
    assert_eq!(feed(&mut button, Level::High, 6), release);
}

#[test]
fn hold_at_the_threshold_is_a_short_press() {
    let mut button = pressed_button();
    let ticks = LONG_PRESS_TICKS as usize;
    assert_eq!(feed(&mut button, Level::Low, ticks), vec![None; ticks]);
    let mut release = vec![None; 6];
    release[5] = Some(ButtonEvent::Release);
    assert_eq!(feed(&mut button, Level::High, 6), release);
}

#[test]
fn hold_one_past_the_threshold_is_a_long_press() {
    let mut button = pressed_button();
    let ticks = LONG_PRESS_TICKS as usize;
    assert_eq!(feed(&mut button, Level::Low, ticks), vec![None; ticks]);
    assert_eq!(button.update(Level::Low), Some(ButtonEvent::LongPress));
    let mut release = vec![None; 6];
    release[5] = Some(ButtonEvent::LongRelease);
    assert_eq!(feed(&mut button, Level::High, 6), release);
}

#[test]
fn bounce_during_a_hold_neither_releases_nor_restarts_the_count() {
    let mut button = pressed_button();
    assert_eq!(feed(&mut button, Level::Low, 60), vec![None; 60]);
    // Three high samples are not a release, and the six low samples that
    // refill the filter are not a second press.
    assert_eq!(feed(&mut button, Level::High, 3), vec![None; 3]);
    assert_eq!(feed(&mut button, Level::Low, 5), vec![None; 5]);
    // The sixth low sample makes the level stable again: tick 61 of the hold.
    assert_eq!(feed(&mut button, Level::Low, 40), vec![None; 40]);
    assert_eq!(button.update(Level::Low), Some(ButtonEvent::LongPress));
}

#[test]
fn each_hold_gets_its_own_long_press() {
    let mut button = Button::new();
    for _ in 0..3 {
        let events = feed(&mut button, Level::Low, 6 + LONG_PRESS_TICKS as usize + 50);
        let long_presses = events.iter().filter(|e| **e == Some(ButtonEvent::LongPress)).count();
        let presses = events.iter().filter(|e| **e == Some(ButtonEvent::Press)).count();
        assert_eq!((presses, long_presses), (1, 1));
        assert_eq!(events[5], Some(ButtonEvent::Press));
        assert_eq!(events[6 + LONG_PRESS_TICKS as usize], Some(ButtonEvent::LongPress));
        let release = feed(&mut button, Level::High, 6);
        assert_eq!(release[5], Some(ButtonEvent::LongRelease));
    }
}

#[test]
fn short_click_after_a_long_hold_is_short_again() {
    let mut button = pressed_button();
    feed(&mut button, Level::Low, 200);
    assert_eq!(feed(&mut button, Level::High, 6)[5], Some(ButtonEvent::LongRelease));
    assert_eq!(feed(&mut button, Level::Low, 6)[5], Some(ButtonEvent::Press));
    assert_eq!(feed(&mut button, Level::High, 6)[5], Some(ButtonEvent::Release));
}

#[test]
fn level_low_means_pressed() {
    assert!(Level::Low.is_pressed());
    assert!(!Level::High.is_pressed());
}
