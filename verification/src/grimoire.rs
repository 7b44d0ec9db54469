//! The first mapping of the controller: buttons to keyboard keys and mouse
//! buttons while in keyboard mode, everything passed to a virtual gamepad
//! otherwise. Holding exactly the base and the mode buttons switches modes.

use vstd::prelude::*;

use crate::codes::{
    BTN_BASE, BTN_DPAD_DOWN, BTN_DPAD_LEFT, BTN_DPAD_RIGHT, BTN_DPAD_UP, BTN_LEFT, BTN_MIDDLE,
    BTN_MODE, BTN_RIGHT, BTN_SELECT, BTN_START, BTN_TL, BTN_TL2, BTN_TR, BTN_TR2,
    BTN_TRIGGER_HAPPY1, BTN_TRIGGER_HAPPY2, BTN_TRIGGER_HAPPY3, BTN_TRIGGER_HAPPY4, KEY_COMPOSE,
    KEY_DOWN, KEY_LEFT, KEY_LEFTALT, KEY_LEFTCTRL, KEY_LEFTMETA, KEY_LEFTSHIFT, KEY_RIGHT,
    KEY_RIGHTALT, KEY_TAB, KEY_UP,
};
use crate::event::{key_event, InputEvent};

verus! {

/// The key or mouse button that a controller button stands for.
pub open spec fn mapped_key(code: u16) -> Option<u16> {
    if code == BTN_TL {
        Some(BTN_RIGHT)
    } else if code == BTN_TR {
        Some(BTN_LEFT)
    } else if code == BTN_TL2 {
        Some(BTN_MIDDLE)
    } else if code == BTN_TR2 {
        Some(KEY_LEFTMETA)
    } else if code == BTN_DPAD_UP {
        Some(KEY_UP)
    } else if code == BTN_DPAD_DOWN {
        Some(KEY_DOWN)
    } else if code == BTN_DPAD_LEFT {
        Some(KEY_LEFT)
    } else if code == BTN_DPAD_RIGHT {
        Some(KEY_RIGHT)
    } else if code == BTN_TRIGGER_HAPPY1 {
        Some(KEY_LEFTSHIFT)
    } else if code == BTN_TRIGGER_HAPPY3 {
        Some(KEY_LEFTCTRL)
    } else if code == BTN_TRIGGER_HAPPY2 {
        Some(KEY_RIGHTALT)
    } else if code == BTN_TRIGGER_HAPPY4 {
        Some(KEY_LEFTALT)
    } else if code == BTN_SELECT {
        Some(KEY_TAB)
    } else if code == BTN_START {
        Some(KEY_COMPOSE)
    } else {
        None
    }
}

/// The keyboard events that `evt` gives: the mapped key with the event's
/// value, or nothing.
pub open spec fn kbd_map_of(evt: InputEvent) -> Seq<InputEvent> {
    match mapped_key(evt.code) {
        Some(k) => seq![key_event(k, evt.value)],
        None => Seq::empty(),
    }
}

/// The keys that the virtual keyboard is built with.
pub open spec fn keyboard_key_list() -> Seq<u16> {
    seq![
        BTN_RIGHT, BTN_LEFT, BTN_MIDDLE, KEY_LEFTMETA, KEY_UP, KEY_DOWN, KEY_LEFT, KEY_RIGHT,
        KEY_LEFTSHIFT, KEY_LEFTCTRL, KEY_RIGHTALT, KEY_LEFTALT, KEY_TAB, KEY_COMPOSE,
    ]
}

/// The keys held, listed in ascending order, are exactly the base and the
/// mode buttons.
pub open spec fn is_switch_chord(pressed: Seq<u16>) -> bool {
    pressed == seq![BTN_BASE, BTN_MODE]
}

/// Events to send to the virtual keyboard, or to the virtual gamepad.
pub struct Route {
    pub to_keyboard: bool,
    pub events: Vec<InputEvent>,
}

/// What is sent for `evt` in the given mode.
pub open spec fn routed_events(kbd_mode: bool, evt: InputEvent) -> Seq<InputEvent> {
    if kbd_mode {
        kbd_map_of(evt)
    } else {
        seq![evt]
    }
}

/// An event for key `key` with the value of `evt`.
pub fn key2key(evt: InputEvent, key: u16) -> (res: InputEvent)
    ensures
        res == key_event(key, evt.value),
{
    InputEvent::new_key(key, evt.value)
}

/// The keyboard events that `evt` gives; see `kbd_map_of`.
pub fn kbd_map(evt: InputEvent) -> (res: Vec<InputEvent>)
    ensures
        res@ == kbd_map_of(evt),
{
    let code: u16 = evt.code;
    if code == BTN_TL {
        vec![key2key(evt, BTN_RIGHT)]
    } else if code == BTN_TR {
        vec![key2key(evt, BTN_LEFT)]
    } else if code == BTN_TL2 {
        vec![key2key(evt, BTN_MIDDLE)]
    } else if code == BTN_TR2 {
        vec![key2key(evt, KEY_LEFTMETA)]
    } else if code == BTN_DPAD_UP {
        vec![key2key(evt, KEY_UP)]
    } else if code == BTN_DPAD_DOWN {
        vec![key2key(evt, KEY_DOWN)]
    } else if code == BTN_DPAD_LEFT {
        vec![key2key(evt, KEY_LEFT)]
    } else if code == BTN_DPAD_RIGHT {
        vec![key2key(evt, KEY_RIGHT)]
    } else if code == BTN_TRIGGER_HAPPY1 {
        vec![key2key(evt, KEY_LEFTSHIFT)]
    } else if code == BTN_TRIGGER_HAPPY3 {
        vec![key2key(evt, KEY_LEFTCTRL)]
    } else if code == BTN_TRIGGER_HAPPY2 {
        vec![key2key(evt, KEY_RIGHTALT)]
    } else if code == BTN_TRIGGER_HAPPY4 {
        vec![key2key(evt, KEY_LEFTALT)]
    } else if code == BTN_SELECT {
        vec![key2key(evt, KEY_TAB)]
    } else if code == BTN_START {
        vec![key2key(evt, KEY_COMPOSE)]
    } else {
        vec![]
    }
}

/// The keys that the virtual keyboard is built with.
pub fn keyboard_keys() -> (res: Vec<u16>)
    ensures
        res@ == keyboard_key_list(),
{
    vec![
        BTN_RIGHT, BTN_LEFT, BTN_MIDDLE, KEY_LEFTMETA, KEY_UP, KEY_DOWN, KEY_LEFT, KEY_RIGHT,
        KEY_LEFTSHIFT, KEY_LEFTCTRL, KEY_RIGHTALT, KEY_LEFTALT, KEY_TAB, KEY_COMPOSE,
    ]
}

/// Whether the keys held, in ascending order, are the mode switch chord.
pub fn switch_chord_held(pressed: &Vec<u16>) -> (res: bool)
    ensures
        res == is_switch_chord(pressed@),
{
    let held: bool = pressed.len() == 2 && pressed[0] == BTN_BASE && pressed[1] == BTN_MODE;
    assert(held ==> pressed@ == seq![BTN_BASE, BTN_MODE]);
    held
}

/// One batch of events: `pressed` lists the keys held after it, in
/// ascending order. On the switch chord the mode flips and the batch is
/// dropped; otherwise each event, in order, is routed in the current mode.
/// Returns the mode afterwards and what to send.
pub fn dispatch(kbd_mode: bool, pressed: &Vec<u16>, events: &Vec<InputEvent>) -> (res: (bool, Vec<Route>))
    ensures
        is_switch_chord(pressed@) ==> res.0 == !kbd_mode && res.1@.len() == 0,
        !is_switch_chord(pressed@) ==> {
            &&& res.0 == kbd_mode
            &&& res.1@.len() == events@.len()
            &&& forall|i: int| 0 <= i < events@.len() ==> {
                &&& (#[trigger] res.1@[i]).to_keyboard == kbd_mode
                &&& res.1@[i].events@ == routed_events(kbd_mode, events@[i])
            }
        },
{
    if switch_chord_held(pressed) {
        return (!kbd_mode, Vec::new());
    }
    let mut routes: Vec<Route> = Vec::new();
    let n: usize = events.len();
    let mut i: usize = 0;
    while i < n
        invariant
            n == events@.len(),
            i <= n,
            routes@.len() == i,
            forall|j: int| 0 <= j < i ==> {
                &&& (#[trigger] routes@[j]).to_keyboard == kbd_mode
                &&& routes@[j].events@ == routed_events(kbd_mode, events@[j])
            },
        decreases n - i,
    {
        let evt: InputEvent = events[i];
        let out: Vec<InputEvent> = if kbd_mode {
            kbd_map(evt)
        } else {
            vec![evt]
        };
        routes.push(Route { to_keyboard: kbd_mode, events: out });
        i = i + 1;
    }
    (kbd_mode, routes)
}

} // verus!
