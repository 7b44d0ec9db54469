use sdmap::codes::{
    BTN_BASE, BTN_DPAD_UP, BTN_LEFT, BTN_MIDDLE, BTN_MODE, BTN_RIGHT, BTN_SELECT, BTN_SOUTH,
    BTN_START, BTN_TL, BTN_TL2, BTN_TR, BTN_TR2, BTN_TRIGGER_HAPPY2, EV_ABS, KEY_COMPOSE,
    KEY_LEFTMETA, KEY_RIGHTALT, KEY_TAB, KEY_UP,
};
use sdmap::grimoire::{dispatch, kbd_map, key2key, keyboard_keys, switch_chord_held};
use sdmap::InputEvent;

fn key(code: u16, value: i32) -> InputEvent {
    InputEvent::new_key(code, value)
}

#[test]
fn key2key_keeps_the_value() {
    assert_eq!(key2key(key(BTN_TL, 1), BTN_RIGHT), key(BTN_RIGHT, 1));
    assert_eq!(key2key(InputEvent::new(EV_ABS, 3, -7), KEY_TAB), key(KEY_TAB, -7));
}

#[test]
fn buttons_map_to_keys_and_mouse_buttons() {
    assert_eq!(kbd_map(key(BTN_TL, 1)), vec![key(BTN_RIGHT, 1)]);
    assert_eq!(kbd_map(key(BTN_TR, 0)), vec![key(BTN_LEFT, 0)]);
    assert_eq!(kbd_map(key(BTN_TL2, 1)), vec![key(BTN_MIDDLE, 1)]);
    assert_eq!(kbd_map(key(BTN_TR2, 1)), vec![key(KEY_LEFTMETA, 1)]);
    assert_eq!(kbd_map(key(BTN_DPAD_UP, 1)), vec![key(KEY_UP, 1)]);
    assert_eq!(kbd_map(key(BTN_TRIGGER_HAPPY2, 1)), vec![key(KEY_RIGHTALT, 1)]);
    assert_eq!(kbd_map(key(BTN_SELECT, 1)), vec![key(KEY_TAB, 1)]);
    assert_eq!(kbd_map(key(BTN_START, 1)), vec![key(KEY_COMPOSE, 1)]);
    assert_eq!(kbd_map(key(BTN_SOUTH, 1)), vec![]);
}

#[test]
fn keyboard_is_built_with_every_mapped_key() {
    let keys = keyboard_keys();
    assert_eq!(keys.len(), 14);
    for code in 0..0x300u16 {
        for e in kbd_map(key(code, 1)) {
            assert!(keys.contains(&e.code));
        }
    }
}

#[test]
fn switch_chord_is_exactly_base_and_mode() {
    assert!(switch_chord_held(&vec![BTN_BASE, BTN_MODE]));
    assert!(!switch_chord_held(&vec![BTN_MODE, BTN_BASE]));
    assert!(!switch_chord_held(&vec![BTN_BASE]));
    assert!(!switch_chord_held(&vec![BTN_SOUTH, BTN_BASE, BTN_MODE]));
}

#[test]
fn dispatch_switches_and_drops_the_batch() {
    let (mode, routes) = dispatch(true, &vec![BTN_BASE, BTN_MODE], &vec![key(BTN_TL, 1)]);
    assert!(!mode);
    assert!(routes.is_empty());
    let (mode, routes) = dispatch(mode, &vec![BTN_BASE, BTN_MODE], &vec![]);
    assert!(mode);
    assert!(routes.is_empty());
}

#[test]
fn dispatch_routes_each_event() {
    let events: Vec<InputEvent> = vec![key(BTN_TL, 1), key(BTN_SOUTH, 1)];
    let (mode, routes) = dispatch(true, &vec![BTN_TL], &events);
    assert!(mode);
    assert_eq!(routes.len(), 2);
    assert!(routes[0].to_keyboard && routes[1].to_keyboard);
    assert_eq!(routes[0].events, vec![key(BTN_RIGHT, 1)]);
    assert!(routes[1].events.is_empty());
    let (mode, routes) = dispatch(false, &vec![], &events);
    assert!(!mode);
    assert!(!routes[0].to_keyboard);
    assert_eq!(routes[0].events, vec![key(BTN_TL, 1)]);
    assert_eq!(routes[1].events, vec![key(BTN_SOUTH, 1)]);
}
