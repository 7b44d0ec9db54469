use sdmap::codes::{
    ABS_COUNT, ABS_HAT0X, ABS_HAT0Y, ABS_HAT1X, ABS_HAT1Y, ABS_X, ABS_Y, BTN_BASE, BTN_EAST,
    BTN_LEFT, BTN_MIDDLE, BTN_MODE, BTN_NORTH, BTN_RIGHT, BTN_SOUTH, BTN_START, BTN_TL, BTN_TL2,
    BTN_TOOL_FINGER, BTN_TOUCH, BTN_TR, BTN_TR2, BTN_WEST, EV_ABS, EV_KEY, EV_SYN, KEY_BACKSPACE,
    KEY_COMPOSE, KEY_DELETE, KEY_END, KEY_ENTER, KEY_ESC, KEY_HOME, KEY_LEFTMETA, KEY_PAGEDOWN,
    KEY_PAGEUP, KEY_SPACE,
};
use sdmap::sdmapd::{trackpad_accepts_all, trackpad_keys};
use sdmap::{AbsInfo, DeviceSnapshot, InputEvent, Sdmapd, VkbdLayout};

fn absinfos() -> Vec<AbsInfo> {
    let mut v: Vec<AbsInfo> = vec![AbsInfo::new(0, 0, 0, 0, 0, 0); ABS_COUNT];
    v[ABS_X as usize] = AbsInfo::new(0, -100, 100, 0, 0, 5);
    v[ABS_Y as usize] = AbsInfo::new(0, -100, 100, 0, 0, 5);
    v[ABS_HAT0X as usize] = AbsInfo::new(0, -10, 10, 0, 0, 0);
    v[ABS_HAT0Y as usize] = AbsInfo::new(0, -10, 10, 0, 0, 0);
    v[ABS_HAT1X as usize] = AbsInfo::new(0, -1000, 1000, 16, 0, 7);
    v[ABS_HAT1Y as usize] = AbsInfo::new(0, -2000, 2000, 32, 0, 9);
    v
}

fn snapshot(pressed: Vec<u16>, hat_x: i32, hat_y: i32) -> DeviceSnapshot {
    let mut abs_values: Vec<i32> = vec![0; ABS_COUNT];
    abs_values[ABS_HAT0X as usize] = hat_x;
    abs_values[ABS_HAT0Y as usize] = hat_y;
    DeviceSnapshot { pressed_keys: pressed, abs_values }
}

/// Three rows of four cells; the cell at row r, column c holds the keys
/// 200 + 16 r + 4 c + section.
fn cell_key(row: u16, col: u16, section: u16) -> u16 {
    200 + 16 * row + 4 * col + section
}

fn layout() -> VkbdLayout {
    let mut cells: Vec<Vec<[u16; 4]>> = Vec::new();
    for r in 0..3u16 {
        let mut row: Vec<[u16; 4]> = Vec::new();
        for c in 0..4u16 {
            row.push([cell_key(r, c, 0), cell_key(r, c, 1), cell_key(r, c, 2), cell_key(r, c, 3)]);
        }
        cells.push(row);
    }
    VkbdLayout::new(cells).unwrap()
}

fn daemon(pressed: Vec<u16>, hat_x: i32, hat_y: i32) -> Sdmapd {
    Sdmapd::new(absinfos(), snapshot(pressed, hat_x, hat_y), layout())
}

fn key(code: u16, value: i32) -> InputEvent {
    InputEvent::new_key(code, value)
}

fn abs(code: u16, value: i32) -> InputEvent {
    InputEvent::new_abs(code, value)
}

#[test]
fn new_starts_in_keyboard_mode() {
    let sd = daemon(vec![], 0, 0);
    assert!(sd.kbd_mode);
    assert!(sd.kbd_mode());
    assert!(!sd.touch);
}

#[test]
fn buttons_pass_their_value_to_keys() {
    let sd = daemon(vec![], 0, 0);
    assert_eq!(sd.kbd_map(key(BTN_TR2, 1)), vec![key(KEY_LEFTMETA, 1)]);
    assert_eq!(sd.kbd_map(key(BTN_TR2, 0)), vec![key(KEY_LEFTMETA, 0)]);
    assert_eq!(sd.kbd_map(key(BTN_START, 2)), vec![key(KEY_DELETE, 2)]);
    assert_eq!(sd.kbd_map(key(BTN_BASE, 1)), vec![key(KEY_COMPOSE, 1)]);
}

#[test]
fn joystick_extremes_press_keys() {
    let sd = daemon(vec![], 0, 0);
    assert_eq!(sd.kbd_map(abs(ABS_Y, -100)), vec![key(KEY_PAGEUP, 1)]);
    assert_eq!(sd.kbd_map(abs(ABS_Y, 100)), vec![key(KEY_PAGEDOWN, 1)]);
    assert_eq!(sd.kbd_map(abs(ABS_Y, 3)), vec![key(KEY_PAGEUP, 0), key(KEY_PAGEDOWN, 0)]);
    assert_eq!(sd.kbd_map(abs(ABS_Y, -5)), vec![key(KEY_PAGEUP, 0), key(KEY_PAGEDOWN, 0)]);
    assert_eq!(sd.kbd_map(abs(ABS_Y, 50)), vec![]);
    assert_eq!(sd.kbd_map(abs(ABS_X, -100)), vec![key(KEY_HOME, 1)]);
    assert_eq!(sd.kbd_map(abs(ABS_X, 100)), vec![key(KEY_END, 1)]);
}

#[test]
fn face_buttons_tap_layout_keys() {
    // The hat in the upper left corner selects cell (0, 0).
    let sd = daemon(vec![], -10, 10);
    assert_eq!(sd.kbd_map(key(BTN_SOUTH, 1)), vec![key(cell_key(0, 0, 0), 1), key(cell_key(0, 0, 0), 0)]);
    assert_eq!(sd.kbd_map(key(BTN_EAST, 1)), vec![key(cell_key(0, 0, 1), 1), key(cell_key(0, 0, 1), 0)]);
    assert_eq!(sd.kbd_map(key(BTN_SOUTH, 0)), vec![]);
    // The lower right corner selects cell (3, 2).
    let sd = daemon(vec![], 10, -10);
    assert_eq!(sd.kbd_map(key(BTN_WEST, 1)), vec![key(cell_key(2, 3, 3), 1), key(cell_key(2, 3, 3), 0)]);
    assert_eq!(sd.kbd_map(key(BTN_NORTH, 2)), vec![key(cell_key(2, 3, 2), 1), key(cell_key(2, 3, 2), 0)]);
}

#[test]
fn face_buttons_fall_back_at_rest() {
    let sd = daemon(vec![], 0, 0);
    assert_eq!(sd.kbd_map(key(BTN_SOUTH, 1)), vec![key(KEY_ENTER, 1), key(KEY_ENTER, 0)]);
    assert_eq!(sd.kbd_map(key(BTN_EAST, 1)), vec![key(KEY_ESC, 1), key(KEY_ESC, 0)]);
    assert_eq!(sd.kbd_map(key(BTN_NORTH, 1)), vec![key(KEY_BACKSPACE, 1), key(KEY_BACKSPACE, 0)]);
    assert_eq!(sd.kbd_map(key(BTN_WEST, 1)), vec![key(KEY_SPACE, 1), key(KEY_SPACE, 0)]);
}

#[test]
fn other_events_report_the_cell() {
    let sd = daemon(vec![], 0, 10);
    // The event's own hat value counts on its axis.
    assert_eq!(sd.kbd_map(abs(ABS_HAT0X, -10)), vec![abs(ABS_HAT0X, 0), abs(ABS_HAT0Y, 0)]);
    assert_eq!(sd.kbd_map(abs(ABS_HAT0Y, -10)), vec![abs(ABS_HAT0X, 1), abs(ABS_HAT0Y, 2)]);
    // At rest nothing is reported.
    assert_eq!(sd.kbd_map(abs(ABS_HAT0Y, 0)), vec![]);
    // Unrelated buttons report the cell as well.
    assert_eq!(sd.kbd_map(key(BTN_TL, 1)), vec![abs(ABS_HAT0X, 1), abs(ABS_HAT0Y, 0)]);
}

#[test]
fn sync_events_count_as_the_x_axis() {
    // A synchronization report has code 0, the code of the x axis.
    let sd = daemon(vec![], 0, 0);
    let syn = InputEvent::new(EV_SYN, 0, 0);
    assert_eq!(sd.kbd_map(syn), vec![key(KEY_HOME, 0), key(KEY_END, 0)]);
}

#[test]
fn vkbd_keypos_values() {
    let sd = daemon(vec![], 1, 0);
    assert_eq!(sd.vkbd_keypos(key(BTN_SOUTH, 1)), Some((2, 1)));
    assert_eq!(sd.vkbd_keypos(abs(ABS_HAT0X, 0)), None);
    let sd = daemon(vec![], -16, 0);
    assert_eq!(sd.vkbd_keypos(key(BTN_SOUTH, 1)), Some((usize::MAX, 1)));
}

#[test]
fn keyboard_rejects_what_would_fail() {
    let sd = daemon(vec![], 11, 0);
    assert!(!sd.keyboard_accepts(abs(ABS_X, i32::MIN)));
    assert!(sd.keyboard_accepts(abs(ABS_X, i32::MAX)));
    // Column 4 lies outside the layout.
    assert!(!sd.keyboard_accepts(key(BTN_SOUTH, 1)));
    assert!(sd.keyboard_accepts(key(BTN_SOUTH, 0)));
    assert!(sd.keyboard_accepts(key(BTN_TL, 1)));
    assert!(sd.keyboard_accepts(key(BTN_TR2, 1)));
    let sd = daemon(vec![], 0, i32::MIN);
    assert!(!sd.keyboard_accepts(key(BTN_TL, 1)));
    assert!(!sd.keyboard_accepts_all(&vec![key(BTN_TR2, 1), key(BTN_TL, 1)]));
    assert!(sd.keyboard_accepts_all(&vec![key(BTN_TR2, 1), abs(ABS_Y, 4)]));
}

#[test]
fn mode_button_switches_on_presses() {
    let mut sd = daemon(vec![BTN_SOUTH, BTN_MODE], 0, 0);
    assert_eq!(sd.meta_map(key(BTN_SOUTH, 1)), Some(false));
    assert!(!sd.kbd_mode);
    assert_eq!(sd.meta_map(key(BTN_SOUTH, 0)), None);
    assert_eq!(sd.meta_map(abs(ABS_X, 1)), Some(true));
    assert!(sd.kbd_mode);
    let mut sd = daemon(vec![BTN_SOUTH], 0, 0);
    assert_eq!(sd.meta_map(key(BTN_SOUTH, 1)), None);
    assert!(sd.kbd_mode);
}

#[test]
fn mode_switches_alternate_in_a_batch() {
    let mut sd = daemon(vec![BTN_MODE], 0, 0);
    let events: Vec<InputEvent> =
        vec![key(BTN_SOUTH, 1), key(BTN_SOUTH, 0), key(BTN_EAST, 1), abs(ABS_Y, 1), key(BTN_TL, 1)];
    assert_eq!(sd.apply_meta(&events), vec![false, true, false, true]);
    assert!(sd.kbd_mode);
}

#[test]
fn gamepad_mode_sends_nothing() {
    let mut sd = daemon(vec![BTN_MODE], 0, 0);
    let events: Vec<InputEvent> = vec![key(BTN_MODE, 1), key(BTN_TR2, 0)];
    assert!(sd.batch_accepted(&events));
    let out = sd.handle_batch(&events);
    assert_eq!(out.grabs, vec![false]);
    assert!(!out.send);
    assert!(out.keyboard.is_empty());
    assert!(out.trackpad.is_empty());
    // Without the mode button held the daemon stays in gamepad mode.
    sd.set_snapshot(snapshot(vec![], 0, 0));
    let out = sd.handle_batch(&vec![key(BTN_TR, 1)]);
    assert!(out.grabs.is_empty());
    assert!(!out.send);
}

#[test]
fn keyboard_mode_maps_the_batch() {
    let mut sd = daemon(vec![], 0, 0);
    let events: Vec<InputEvent> = vec![key(BTN_TR2, 1), abs(ABS_HAT1X, 40), key(BTN_TL, 1)];
    assert!(sd.batch_accepted(&events));
    let out = sd.handle_batch(&events);
    assert!(out.grabs.is_empty());
    assert!(out.send);
    assert_eq!(out.keyboard, vec![key(KEY_LEFTMETA, 1)]);
    assert_eq!(
        out.trackpad,
        vec![key(BTN_TOUCH, 1), key(BTN_TOOL_FINGER, 1), abs(ABS_X, 40), key(BTN_RIGHT, 1)]
    );
    assert!(sd.touch);
}

#[test]
fn batch_acceptance_depends_on_the_mode_reached() {
    let bad: Vec<InputEvent> = vec![abs(ABS_X, i32::MIN)];
    let sd = daemon(vec![], 0, 0);
    assert!(!sd.batch_accepted(&bad));
    let mut sd = daemon(vec![], 0, 0);
    sd.kbd_mode = false;
    assert!(sd.batch_accepted(&bad));
    let sd = daemon(vec![], 0, 0);
    assert!(!sd.batch_accepted(&vec![abs(ABS_HAT1Y, i32::MIN)]));
}

#[test]
fn trackpad_announces_touch_changes() {
    let mut sd = daemon(vec![], 0, 0);
    assert_eq!(
        sd.trackpad_map(abs(ABS_HAT1X, 50)),
        vec![key(BTN_TOUCH, 1), key(BTN_TOOL_FINGER, 1), abs(ABS_X, 50)]
    );
    assert!(sd.touch);
    assert_eq!(sd.trackpad_map(abs(ABS_HAT1X, 60)), vec![abs(ABS_X, 60)]);
    assert_eq!(sd.trackpad_map(abs(ABS_HAT1Y, 20)), vec![abs(ABS_Y, -20)]);
    assert_eq!(
        sd.trackpad_map(abs(ABS_HAT1Y, 0)),
        vec![key(BTN_TOUCH, 0), key(BTN_TOOL_FINGER, 0), abs(ABS_Y, 0)]
    );
    assert!(!sd.touch);
    assert_eq!(
        sd.trackpad_map(abs(ABS_HAT1X, 0)),
        vec![key(BTN_TOUCH, 0), key(BTN_TOOL_FINGER, 0), abs(ABS_X, 0)]
    );
    assert_eq!(sd.trackpad_map(key(BTN_TL, 1)), vec![key(BTN_RIGHT, 1)]);
    assert_eq!(sd.trackpad_map(key(BTN_TR, 0)), vec![key(BTN_LEFT, 0)]);
    assert_eq!(sd.trackpad_map(key(BTN_TL2, 1)), vec![key(BTN_MIDDLE, 1)]);
    assert_eq!(sd.trackpad_map(key(BTN_SOUTH, 1)), vec![]);
}

#[test]
fn touch_follows_the_last_right_hat_event() {
    let mut sd = daemon(vec![], 0, 0);
    let events: Vec<InputEvent> = vec![abs(ABS_HAT1X, 5), abs(ABS_HAT1Y, 0), key(BTN_TL, 1), abs(ABS_HAT1Y, -3), key(BTN_TR, 1)];
    let out = sd.map_trackpad(&events);
    assert!(sd.touch);
    assert_eq!(
        out,
        vec![
            key(BTN_TOUCH, 1),
            key(BTN_TOOL_FINGER, 1),
            abs(ABS_X, 5),
            key(BTN_TOUCH, 0),
            key(BTN_TOOL_FINGER, 0),
            abs(ABS_Y, 0),
            key(BTN_RIGHT, 1),
            key(BTN_TOUCH, 1),
            key(BTN_TOOL_FINGER, 1),
            abs(ABS_Y, 3),
            key(BTN_LEFT, 1),
        ]
    );
}

#[test]
fn trackpad_rejects_unscalable_values() {
    assert!(!trackpad_accepts_all(&vec![abs(ABS_HAT1X, 1), abs(ABS_HAT1Y, i32::MIN)]));
    assert!(trackpad_accepts_all(&vec![abs(ABS_HAT1X, i32::MIN), abs(ABS_HAT1Y, i32::MAX)]));
}

#[test]
fn virtual_devices_are_described() {
    let sd = daemon(vec![], 0, 0);
    let keys = sd.keyboard_keys();
    assert_eq!(keys.len(), 48 + 20);
    assert_eq!(keys[0], cell_key(0, 0, 0));
    assert_eq!(keys[47], cell_key(2, 3, 3));
    assert_eq!(&keys[48..], &[
        KEY_LEFTMETA, sdmap::codes::KEY_UP, sdmap::codes::KEY_DOWN, sdmap::codes::KEY_LEFT,
        sdmap::codes::KEY_RIGHT, sdmap::codes::KEY_LEFTSHIFT, sdmap::codes::KEY_LEFTCTRL,
        sdmap::codes::KEY_RIGHTALT, sdmap::codes::KEY_LEFTALT, sdmap::codes::KEY_TAB, KEY_COMPOSE,
        KEY_PAGEUP, KEY_PAGEDOWN, KEY_HOME, KEY_END, KEY_ENTER, KEY_ESC, KEY_BACKSPACE, KEY_SPACE,
        KEY_DELETE,
    ]);
    assert_eq!(
        sd.keyboard_axes(),
        vec![(ABS_HAT0X, AbsInfo::new(0, 0, 4, 0, 0, 0)), (ABS_HAT0Y, AbsInfo::new(0, 0, 3, 0, 0, 0))]
    );
    assert_eq!(
        sd.trackpad_axes(),
        vec![(ABS_X, AbsInfo::new(0, -1000, 1000, 16, 0, 7)), (ABS_Y, AbsInfo::new(0, -2000, 2000, 32, 0, 9))]
    );
    assert_eq!(trackpad_keys(), vec![BTN_RIGHT, BTN_LEFT, BTN_MIDDLE, BTN_TOUCH, BTN_TOOL_FINGER]);
}

#[test]
fn every_hat_position_in_range_selects_a_cell() {
    for x in -10..=10 {
        for y in -10..=10 {
            let sd = daemon(vec![], x, y);
            let evt = key(BTN_SOUTH, 1);
            assert!(sd.keyboard_accepts(evt));
            match sd.vkbd_keypos(evt) {
                Some((c, r)) => {
                    assert!(c < 4 && r < 3);
                    assert_eq!(sd.kbd_map(evt), vec![key(cell_key(r as u16, c as u16, 0), 1), key(cell_key(r as u16, c as u16, 0), 0)]);
                }
                None => assert!(x == 0 && y == 0),
            }
        }
    }
}

#[test]
fn keyboard_sends_only_declared_codes() {
    let sd = daemon(vec![], 3, -7);
    let keys = sd.keyboard_keys();
    let events: Vec<InputEvent> = vec![
        key(BTN_TR2, 1), key(BTN_SOUTH, 1), key(BTN_WEST, 1), abs(ABS_X, 100), abs(ABS_Y, -100),
        key(BTN_TL, 1), InputEvent::new(EV_SYN, 0, 0),
    ];
    for e in sd.map_keyboard(&events) {
        if e.event_type == EV_KEY {
            assert!(keys.contains(&e.code), "{:?}", e);
        } else {
            assert_eq!(e.event_type, EV_ABS);
            assert!(e.code == ABS_HAT0X || e.code == ABS_HAT0Y);
        }
    }
}

#[test]
fn autorepeat_taps_like_a_press() {
    let sd = daemon(vec![], 4, -3);
    assert_eq!(sd.kbd_map(key(BTN_EAST, 2)), sd.kbd_map(key(BTN_EAST, 1)));
    let sd = daemon(vec![], 0, 0);
    assert_eq!(sd.kbd_map(key(BTN_SOUTH, 2)), vec![key(KEY_ENTER, 1), key(KEY_ENTER, 0)]);
}

#[test]
fn cell_is_read_from_the_cache_for_other_events() {
    let sd = daemon(vec![], 7, 2);
    assert_eq!(sd.vkbd_keypos(key(BTN_SOUTH, 1)), sd.vkbd_keypos(abs(ABS_Y, 40)));
    assert_eq!(sd.vkbd_keypos(key(BTN_SOUTH, 1)), Some((3, 1)));
}
