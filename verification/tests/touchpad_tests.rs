use timelapse_core::touchpad::{Key, KeyEvent, TouchPad};

#[test]
fn press_and_release_center() {
    let mut t = TouchPad::new();
    assert!(!t.get_touchpad_status(Key::Center));
    // pad 1 (bit 1) is the center key
    t.apply_touch_status(0b10, 1000);
    assert!(t.get_touchpad_status(Key::Center));
    // holding produces no further events
    t.apply_touch_status(0b10, 1500);
    t.apply_touch_status(0, 4500);
    assert!(!t.get_touchpad_status(Key::Center));
    assert_eq!(t.get_button_press_time(Key::Center), 3500);
    let events = t.get_key_event_and_clear();
    assert_eq!(events.len(), 2);
    assert!(matches!(events[0], KeyEvent::CenterKeyDown));
    assert!(matches!(events[1], KeyEvent::CenterKeyUp));
    // draining clears the queue
    assert_eq!(t.get_key_event_and_clear().len(), 0);
}

#[test]
fn other_bits_are_ignored() {
    let mut t = TouchPad::new();
    t.apply_touch_status(0b1, 100);
    t.apply_touch_status(0b100, 100);
    assert!(!t.get_touchpad_status(Key::Center));
    assert_eq!(t.get_key_event_and_clear().len(), 0);
    assert!(!t.get_touchpad_status(Key::Up));
    assert_eq!(t.get_button_press_time(Key::Up), 0);
}

#[test]
fn clear_all_button_event_empties_queue() {
    let mut t = TouchPad::new();
    t.apply_touch_status(0b10, 10);
    t.clear_all_button_event();
    assert_eq!(t.get_key_event_and_clear().len(), 0);
    // the held state itself is untouched
    assert!(t.get_touchpad_status(Key::Center));
}
