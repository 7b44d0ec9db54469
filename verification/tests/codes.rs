use evdev::{AbsoluteAxisType, EventType, Key};
use sdmap::codes;

#[test]
fn event_types_match_evdev() {
    assert_eq!(codes::EV_SYN, EventType::SYNCHRONIZATION.0);
    assert_eq!(codes::EV_KEY, EventType::KEY.0);
    assert_eq!(codes::EV_ABS, EventType::ABSOLUTE.0);
}

#[test]
fn axis_codes_match_evdev() {
    assert_eq!(codes::ABS_X, AbsoluteAxisType::ABS_X.0);
    assert_eq!(codes::ABS_Y, AbsoluteAxisType::ABS_Y.0);
    assert_eq!(codes::ABS_HAT0X, AbsoluteAxisType::ABS_HAT0X.0);
    assert_eq!(codes::ABS_HAT0Y, AbsoluteAxisType::ABS_HAT0Y.0);
    assert_eq!(codes::ABS_HAT1X, AbsoluteAxisType::ABS_HAT1X.0);
    assert_eq!(codes::ABS_HAT1Y, AbsoluteAxisType::ABS_HAT1Y.0);
    assert_eq!(codes::ABS_COUNT, libc::ABS_CNT);
}

#[test]
fn key_codes_match_evdev() {
    let pairs: Vec<(u16, Key)> = vec![
        (codes::KEY_ESC, Key::KEY_ESC),
        (codes::KEY_BACKSPACE, Key::KEY_BACKSPACE),
        (codes::KEY_TAB, Key::KEY_TAB),
        (codes::KEY_ENTER, Key::KEY_ENTER),
        (codes::KEY_LEFTCTRL, Key::KEY_LEFTCTRL),
        (codes::KEY_LEFTSHIFT, Key::KEY_LEFTSHIFT),
        (codes::KEY_LEFTALT, Key::KEY_LEFTALT),
        (codes::KEY_SPACE, Key::KEY_SPACE),
        (codes::KEY_RIGHTALT, Key::KEY_RIGHTALT),
        (codes::KEY_HOME, Key::KEY_HOME),
        (codes::KEY_UP, Key::KEY_UP),
        (codes::KEY_PAGEUP, Key::KEY_PAGEUP),
        (codes::KEY_LEFT, Key::KEY_LEFT),
        (codes::KEY_RIGHT, Key::KEY_RIGHT),
        (codes::KEY_END, Key::KEY_END),
        (codes::KEY_DOWN, Key::KEY_DOWN),
        (codes::KEY_PAGEDOWN, Key::KEY_PAGEDOWN),
        (codes::KEY_DELETE, Key::KEY_DELETE),
        (codes::KEY_LEFTMETA, Key::KEY_LEFTMETA),
        (codes::KEY_COMPOSE, Key::KEY_COMPOSE),
        (codes::BTN_LEFT, Key::BTN_LEFT),
        (codes::BTN_RIGHT, Key::BTN_RIGHT),
        (codes::BTN_MIDDLE, Key::BTN_MIDDLE),
        (codes::BTN_BASE, Key::BTN_BASE),
        (codes::BTN_SOUTH, Key::BTN_SOUTH),
        (codes::BTN_EAST, Key::BTN_EAST),
        (codes::BTN_NORTH, Key::BTN_NORTH),
        (codes::BTN_WEST, Key::BTN_WEST),
        (codes::BTN_TL, Key::BTN_TL),
        (codes::BTN_TR, Key::BTN_TR),
        (codes::BTN_TL2, Key::BTN_TL2),
        (codes::BTN_TR2, Key::BTN_TR2),
        (codes::BTN_SELECT, Key::BTN_SELECT),
        (codes::BTN_START, Key::BTN_START),
        (codes::BTN_MODE, Key::BTN_MODE),
        (codes::BTN_TOOL_FINGER, Key::BTN_TOOL_FINGER),
        (codes::BTN_TOUCH, Key::BTN_TOUCH),
        (codes::BTN_DPAD_UP, Key::BTN_DPAD_UP),
        (codes::BTN_DPAD_DOWN, Key::BTN_DPAD_DOWN),
        (codes::BTN_DPAD_LEFT, Key::BTN_DPAD_LEFT),
        (codes::BTN_DPAD_RIGHT, Key::BTN_DPAD_RIGHT),
        (codes::BTN_TRIGGER_HAPPY1, Key::BTN_TRIGGER_HAPPY1),
        (codes::BTN_TRIGGER_HAPPY2, Key::BTN_TRIGGER_HAPPY2),
        (codes::BTN_TRIGGER_HAPPY3, Key::BTN_TRIGGER_HAPPY3),
        (codes::BTN_TRIGGER_HAPPY4, Key::BTN_TRIGGER_HAPPY4),
    ];
    for (code, key) in pairs {
        assert_eq!(code, key.code(), "{:?}", key);
    }
}

#[test]
fn event_converts_to_evdev_event() {
    let e = sdmap::InputEvent::new_key(codes::KEY_ENTER, 1);
    let raw = evdev::InputEvent::new(EventType(e.event_type), e.code, e.value);
    assert_eq!(raw.event_type(), EventType::KEY);
    assert_eq!(raw.kind(), evdev::InputEventKind::Key(Key::KEY_ENTER));
    assert_eq!(raw.value(), 1);
}
