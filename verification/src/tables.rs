//! What each control of the controller does, stated over the event codes
//! themselves, and how the mappings of whole batches are built from the
//! mappings of their events.

use vstd::prelude::*;

use crate::codes::{
    ABS_HAT0X, ABS_HAT0Y, ABS_HAT1X, ABS_HAT1Y, ABS_X, ABS_Y, BTN_BASE, BTN_DPAD_DOWN,
    BTN_DPAD_LEFT, BTN_DPAD_RIGHT, BTN_DPAD_UP, BTN_EAST, BTN_LEFT, BTN_MIDDLE, BTN_MODE,
    BTN_NORTH, BTN_RIGHT, BTN_SELECT, BTN_SOUTH, BTN_START, BTN_TL, BTN_TL2, BTN_TOOL_FINGER,
    BTN_TOUCH, BTN_TR, BTN_TR2, BTN_TRIGGER_HAPPY1, BTN_TRIGGER_HAPPY2, BTN_TRIGGER_HAPPY3,
    BTN_TRIGGER_HAPPY4, BTN_WEST, KEY_BACKSPACE, KEY_COMPOSE, KEY_DELETE, KEY_DOWN, KEY_END,
    KEY_ENTER, KEY_ESC, KEY_HOME, KEY_LEFT, KEY_LEFTALT, KEY_LEFTCTRL, KEY_LEFTMETA,
    KEY_LEFTSHIFT, KEY_PAGEDOWN, KEY_PAGEUP, KEY_RIGHT, KEY_RIGHTALT, KEY_SPACE, KEY_TAB, KEY_UP,
};
use crate::event::{abs_event, key_event, AbsInfo, InputEvent};
use crate::grimoire;
use crate::layout::{abs_int, keypos, layout_wf, span};
use crate::sdmapd::{
    keyboard_axis_list, meta_run, trackpad_axis_list, trackpad_map_of, trackpad_run, Sdmapd,
};

verus! {

/// Each button that stands for one key sends that key with the button's
/// value: presses, releases and repeats alike.
pub proof fn lemma_keyboard_buttons(sd: Sdmapd, evt: InputEvent)
    ensures
        evt.code == BTN_TR2 ==> sd.kbd_map_of(evt) == seq![key_event(KEY_LEFTMETA, evt.value)],
        evt.code == BTN_DPAD_UP ==> sd.kbd_map_of(evt) == seq![key_event(KEY_UP, evt.value)],
        evt.code == BTN_DPAD_DOWN ==> sd.kbd_map_of(evt) == seq![key_event(KEY_DOWN, evt.value)],
        evt.code == BTN_DPAD_LEFT ==> sd.kbd_map_of(evt) == seq![key_event(KEY_LEFT, evt.value)],
        evt.code == BTN_DPAD_RIGHT ==> sd.kbd_map_of(evt) == seq![key_event(KEY_RIGHT, evt.value)],
        evt.code == BTN_TRIGGER_HAPPY1 ==> sd.kbd_map_of(evt) == seq![key_event(KEY_LEFTSHIFT, evt.value)],
        evt.code == BTN_TRIGGER_HAPPY3 ==> sd.kbd_map_of(evt) == seq![key_event(KEY_LEFTCTRL, evt.value)],
        evt.code == BTN_TRIGGER_HAPPY2 ==> sd.kbd_map_of(evt) == seq![key_event(KEY_RIGHTALT, evt.value)],
        evt.code == BTN_TRIGGER_HAPPY4 ==> sd.kbd_map_of(evt) == seq![key_event(KEY_LEFTALT, evt.value)],
        evt.code == BTN_SELECT ==> sd.kbd_map_of(evt) == seq![key_event(KEY_TAB, evt.value)],
        evt.code == BTN_START ==> sd.kbd_map_of(evt) == seq![key_event(KEY_DELETE, evt.value)],
        evt.code == BTN_BASE ==> sd.kbd_map_of(evt) == seq![key_event(KEY_COMPOSE, evt.value)],
{
}

/// The right joystick's vertical axis is Page Up at its minimum and Page
/// Down at its maximum, the horizontal axis Home and End; inside the
/// resolution around the center both keys are released, elsewhere nothing
/// is sent.
pub proof fn lemma_keyboard_joystick(sd: Sdmapd, evt: InputEvent)
    ensures
        evt.code == ABS_Y || evt.code == ABS_X ==> ({
            let info = sd.absinfos@[evt.code as int];
            let out = sd.kbd_map_of(evt);
            let key_min = if evt.code == ABS_Y { KEY_PAGEUP } else { KEY_HOME };
            let key_max = if evt.code == ABS_Y { KEY_PAGEDOWN } else { KEY_END };
            let centered = -info.resolution <= evt.value <= info.resolution;
            &&& centered ==> out == seq![key_event(key_min, 0), key_event(key_max, 0)]
            &&& !centered && evt.value == info.minimum ==> out == seq![key_event(key_min, 1)]
            &&& !centered && evt.value != info.minimum && evt.value == info.maximum ==> out == seq![key_event(key_max, 1)]
            &&& !centered && evt.value != info.minimum && evt.value != info.maximum ==> out.len() == 0
        }),
{
}

/// A face button press taps a key and a release sends nothing. With the
/// left hat at rest the south, east, north and west buttons tap Enter,
/// Escape, Backspace and Space; with a cell selected they tap the cell's
/// first, second, third and fourth key.
pub proof fn lemma_keyboard_face_buttons(sd: Sdmapd, evt: InputEvent)
    ensures
        ({
            let out = sd.kbd_map_of(evt);
            let face = evt.code == BTN_SOUTH || evt.code == BTN_EAST || evt.code == BTN_NORTH || evt.code == BTN_WEST;
            let section: int = if evt.code == BTN_SOUTH { 0 } else if evt.code == BTN_EAST { 1 } else if evt.code
                == BTN_NORTH { 2 } else { 3 };
            let fallback = if evt.code == BTN_SOUTH { KEY_ENTER } else if evt.code == BTN_EAST { KEY_ESC } else if evt.code
                == BTN_NORTH { KEY_BACKSPACE } else { KEY_SPACE };
            &&& face && evt.value == 0 ==> out.len() == 0
            &&& face && evt.value != 0 && sd.hat_x(evt) == 0 && sd.hat_y(evt) == 0 ==> out == seq![
                key_event(fallback, 1),
                key_event(fallback, 0),
            ]
            &&& face && evt.value != 0 ==> match sd.keypos_of(evt) {
                Some((x, y)) => {
                    let k = sd.layout.cells@[y]@[x]@[section];
                    out == seq![key_event(k, 1), key_event(k, 0)]
                },
                None => true,
            }
        }),
{
}

/// The codes that the keyboard mapping gives a meaning of their own.
pub open spec fn has_keyboard_role(code: u16) -> bool {
    ||| code == BTN_TR2
    ||| code == BTN_DPAD_UP
    ||| code == BTN_DPAD_DOWN
    ||| code == BTN_DPAD_LEFT
    ||| code == BTN_DPAD_RIGHT
    ||| code == BTN_TRIGGER_HAPPY1
    ||| code == BTN_TRIGGER_HAPPY2
    ||| code == BTN_TRIGGER_HAPPY3
    ||| code == BTN_TRIGGER_HAPPY4
    ||| code == BTN_SELECT
    ||| code == BTN_START
    ||| code == BTN_BASE
    ||| code == ABS_X
    ||| code == ABS_Y
    ||| code == BTN_SOUTH
    ||| code == BTN_EAST
    ||| code == BTN_NORTH
    ||| code == BTN_WEST
}

/// Every other event reports the selected cell on the keyboard's hat axes,
/// column then row, and sends nothing while the left hat is at rest.
pub proof fn lemma_keyboard_other_events(sd: Sdmapd, evt: InputEvent)
    requires
        !has_keyboard_role(evt.code),
    ensures
        sd.hat_x(evt) == 0 && sd.hat_y(evt) == 0 ==> sd.kbd_map_of(evt).len() == 0,
        match sd.keypos_of(evt) {
            Some((x, y)) => sd.kbd_map_of(evt) == seq![abs_event(ABS_HAT0X, x as i32), abs_event(ABS_HAT0Y, y as i32)],
            None => true,
        },
{
}

/// The selected cell is the hat position scaled to the layout: the column
/// is `(x + max) * cols / (2 max + 1)` and the row `|y - max| * rows /
/// (2 max + 1)`, both rounded toward zero; at rest there is none.
pub proof fn lemma_keypos_quotients(max: int, rows: int, cols: int, x: int, y: int)
    requires
        max >= 0,
    ensures
        x == 0 && y == 0 <==> keypos(max, rows, cols, x, y) is None,
        match keypos(max, rows, cols, x, y) {
            Some((cx, cy)) => {
                let nx = (x + max) * cols;
                let ny = abs_int(y - max) * rows;
                let d = 2 * max + 1;
                &&& nx >= 0 ==> 0 <= nx - cx * d < d
                &&& nx < 0 ==> -d < nx - cx * d <= 0
                &&& ny >= 0 ==> 0 <= ny - cy * d < d
                &&& ny < 0 ==> -d < ny - cy * d <= 0
            },
            None => true,
        },
{
    let d = span(max);
    assert(d == 2 * max + 1);
    if !(x == 0 && y == 0) {
        let nx = (x + max) * cols;
        let ny = abs_int(y - max) * rows;
        assert(nx >= 0 ==> 0 <= nx - (nx / d) * d < d) by (nonlinear_arith)
            requires
                d >= 1,
        ;
        assert(nx < 0 ==> -d < nx - (-((-nx) / d)) * d <= 0) by (nonlinear_arith)
            requires
                d >= 1,
        ;
        assert(ny >= 0 ==> 0 <= ny - (ny / d) * d < d) by (nonlinear_arith)
            requires
                d >= 1,
        ;
        assert(ny < 0 ==> -d < ny - (-((-ny) / d)) * d <= 0) by (nonlinear_arith)
            requires
                d >= 1,
        ;
    }
}

/// The shoulder buttons and the left trigger are the mouse buttons: they
/// pass their value through, presses and releases alike, and leave the
/// touch state alone. The right hat moves the trackpad: its horizontal axis
/// as is, its vertical axis reversed; the touch state becomes whether the
/// position is off center, and a change or a release is first announced
/// with `BTN_TOUCH` and `BTN_TOOL_FINGER`. Everything else sends nothing.
pub proof fn lemma_trackpad_table(touch: bool, evt: InputEvent)
    ensures
        ({
            let (t, out) = trackpad_map_of(touch, evt);
            let v = evt.value;
            let hat = evt.code == ABS_HAT1X || evt.code == ABS_HAT1Y;
            let announce = v == 0 || !touch;
            let state: i32 = if v != 0 { 1 } else { 0 };
            &&& evt.code == BTN_TL ==> t == touch && out == seq![key_event(BTN_RIGHT, v)]
            &&& evt.code == BTN_TR ==> t == touch && out == seq![key_event(BTN_LEFT, v)]
            &&& evt.code == BTN_TL2 ==> t == touch && out == seq![key_event(BTN_MIDDLE, v)]
            &&& evt.code == ABS_HAT1X ==> out.last() == abs_event(ABS_X, v)
            &&& evt.code == ABS_HAT1Y ==> out.last() == abs_event(ABS_Y, (-(v as int)) as i32)
            &&& hat ==> t == (v != 0)
            &&& hat && announce ==> out.len() == 3 && out[0] == key_event(BTN_TOUCH, state) && out[1]
                == key_event(BTN_TOOL_FINGER, state)
            &&& hat && !announce ==> out.len() == 1
            &&& !hat && evt.code != BTN_TL && evt.code != BTN_TR && evt.code != BTN_TL2 ==> t == touch
                && out.len() == 0
        }),
{
}

/// The keyboard events of a batch are those of its events, in order: one
/// event gives its own mapping, and two batches in a row give the first's
/// events followed by the second's.
pub proof fn lemma_kbd_run_concatenates(sd: Sdmapd, a: Seq<InputEvent>, b: Seq<InputEvent>, e: InputEvent)
    ensures
        sd.kbd_run(Seq::empty()) == Seq::<InputEvent>::empty(),
        sd.kbd_run(seq![e]) == sd.kbd_map_of(e),
        sd.kbd_run(a + b) == sd.kbd_run(a) + sd.kbd_run(b),
    decreases b.len(),
{
    assert(seq![e].drop_last() == Seq::<InputEvent>::empty());
    assert(Seq::<InputEvent>::empty() + sd.kbd_map_of(e) == sd.kbd_map_of(e));
    if b.len() == 0 {
        assert(a + b == a);
        assert(sd.kbd_run(a) + Seq::<InputEvent>::empty() == sd.kbd_run(a));
    } else {
        lemma_kbd_run_concatenates(sd, a, b.drop_last(), e);
        assert((a + b).drop_last() == a + b.drop_last());
        assert((a + b).last() == b.last());
        assert(sd.kbd_run(a) + sd.kbd_run(b.drop_last()) + sd.kbd_map_of(b.last()) == sd.kbd_run(a) + (
        sd.kbd_run(b.drop_last()) + sd.kbd_map_of(b.last())));
    }
}

/// The trackpad events of a batch are those of its events, in order, each
/// mapped with the touch state the events before it left: one event gives
/// its own mapping, and two batches in a row give the first's events
/// followed by the second's, the second starting from the first's touch
/// state.
pub proof fn lemma_trackpad_run_concatenates(touch: bool, a: Seq<InputEvent>, b: Seq<InputEvent>, e: InputEvent)
    ensures
        trackpad_run(touch, Seq::empty()) == (touch, Seq::<InputEvent>::empty()),
        trackpad_run(touch, seq![e]) == trackpad_map_of(touch, e),
        ({
            let (t1, o1) = trackpad_run(touch, a);
            let (t2, o2) = trackpad_run(t1, b);
            trackpad_run(touch, a + b) == (t2, o1 + o2)
        }),
    decreases b.len(),
{
    assert(seq![e].drop_last() == Seq::<InputEvent>::empty());
    assert(seq![e].last() == e);
    assert(trackpad_run(touch, Seq::<InputEvent>::empty()) == (touch, Seq::<InputEvent>::empty()));
    assert(Seq::<InputEvent>::empty() + trackpad_map_of(touch, e).1 == trackpad_map_of(touch, e).1);
    let (t1, o1) = trackpad_run(touch, a);
    if b.len() == 0 {
        assert(a + b == a);
        assert(o1 + Seq::<InputEvent>::empty() == o1);
    } else {
        lemma_trackpad_run_concatenates(touch, a, b.drop_last(), e);
        assert((a + b).drop_last() == a + b.drop_last());
        assert((a + b).last() == b.last());
        let (tb, ob) = trackpad_run(t1, b.drop_last());
        let (tl, ol) = trackpad_map_of(tb, b.last());
        assert(o1 + ob + ol == o1 + (ob + ol));
    }
}

/// The mode switches of a batch are those of its events, in order: two
/// batches in a row give the first's switches followed by the second's,
/// the second starting from the mode the first left; one event switches
/// exactly when it is a press (value 1) with the mode button held.
pub proof fn lemma_meta_run_concatenates(kbd_mode: bool, mode_held: bool, a: Seq<InputEvent>, b: Seq<InputEvent>, e: InputEvent)
    ensures
        meta_run(kbd_mode, mode_held, seq![e]) == (if e.value == 1 && mode_held {
            (!kbd_mode, seq![!kbd_mode])
        } else {
            (kbd_mode, Seq::<bool>::empty())
        }),
        ({
            let (m1, g1) = meta_run(kbd_mode, mode_held, a);
            let (m2, g2) = meta_run(m1, mode_held, b);
            meta_run(kbd_mode, mode_held, a + b) == (m2, g1 + g2)
        }),
    decreases b.len(),
{
    assert(seq![e].drop_last() == Seq::<InputEvent>::empty());
    assert(seq![e].last() == e);
    assert(meta_run(kbd_mode, mode_held, Seq::<InputEvent>::empty()) == (kbd_mode, Seq::<bool>::empty()));
    assert(Seq::<bool>::empty().push(!kbd_mode) == seq![!kbd_mode]);
    let (m1, g1) = meta_run(kbd_mode, mode_held, a);
    if b.len() == 0 {
        assert(a + b == a);
        assert(g1 + Seq::<bool>::empty() == g1);
    } else {
        lemma_meta_run_concatenates(kbd_mode, mode_held, a, b.drop_last(), e);
        assert((a + b).drop_last() == a + b.drop_last());
        assert((a + b).last() == b.last());
        let (mb, gb) = meta_run(m1, mode_held, b.drop_last());
        assert((g1 + gb).push(!mb) == g1 + gb.push(!mb));
    }
}

/// In the first mapping the shoulder buttons and the left trigger are the
/// right, left and middle mouse buttons, and the other buttons below stand
/// for one key each; every button passes its value through, and every
/// other code sends nothing.
pub proof fn lemma_grimoire_buttons(evt: InputEvent)
    ensures
        ({
            let out = grimoire::kbd_map_of(evt);
            let v = evt.value;
            &&& evt.code == BTN_TL ==> out == seq![key_event(BTN_RIGHT, v)]
            &&& evt.code == BTN_TR ==> out == seq![key_event(BTN_LEFT, v)]
            &&& evt.code == BTN_TL2 ==> out == seq![key_event(BTN_MIDDLE, v)]
            &&& evt.code == BTN_TR2 ==> out == seq![key_event(KEY_LEFTMETA, v)]
            &&& evt.code == BTN_DPAD_UP ==> out == seq![key_event(KEY_UP, v)]
            &&& evt.code == BTN_DPAD_DOWN ==> out == seq![key_event(KEY_DOWN, v)]
            &&& evt.code == BTN_DPAD_LEFT ==> out == seq![key_event(KEY_LEFT, v)]
            &&& evt.code == BTN_DPAD_RIGHT ==> out == seq![key_event(KEY_RIGHT, v)]
            &&& evt.code == BTN_TRIGGER_HAPPY1 ==> out == seq![key_event(KEY_LEFTSHIFT, v)]
            &&& evt.code == BTN_TRIGGER_HAPPY3 ==> out == seq![key_event(KEY_LEFTCTRL, v)]
            &&& evt.code == BTN_TRIGGER_HAPPY2 ==> out == seq![key_event(KEY_RIGHTALT, v)]
            &&& evt.code == BTN_TRIGGER_HAPPY4 ==> out == seq![key_event(KEY_LEFTALT, v)]
            &&& evt.code == BTN_SELECT ==> out == seq![key_event(KEY_TAB, v)]
            &&& evt.code == BTN_START ==> out == seq![key_event(KEY_COMPOSE, v)]
            &&& !(evt.code == BTN_TL || evt.code == BTN_TR || evt.code == BTN_TL2 || evt.code == BTN_TR2
                || evt.code == BTN_DPAD_UP || evt.code == BTN_DPAD_DOWN || evt.code == BTN_DPAD_LEFT
                || evt.code == BTN_DPAD_RIGHT || evt.code == BTN_TRIGGER_HAPPY1 || evt.code
                == BTN_TRIGGER_HAPPY2 || evt.code == BTN_TRIGGER_HAPPY3 || evt.code == BTN_TRIGGER_HAPPY4
                || evt.code == BTN_SELECT || evt.code == BTN_START) ==> out.len() == 0
        }),
{
}

/// The first mapping switches modes exactly when the keys held, in
/// ascending order, are the base button and the mode button and nothing
/// else.
pub proof fn lemma_grimoire_switch_chord(pressed: Seq<u16>)
    ensures
        grimoire::is_switch_chord(pressed) <==> pressed.len() == 2 && pressed[0] == BTN_BASE && pressed[1]
            == BTN_MODE,
{
    if pressed.len() == 2 && pressed[0] == BTN_BASE && pressed[1] == BTN_MODE {
        assert(pressed == seq![BTN_BASE, BTN_MODE]);
    }
}

/// What the mapping reads of the state: the mode button counts as held
/// when the snapshot lists it among the keys held; the left hat's position
/// is the event's value on the axis the event reports and the snapshot's
/// value on the other; the cell is computed from the maximum of the hat's
/// horizontal axis and the layout's number of rows and columns.
pub proof fn lemma_mapping_inputs(sd: Sdmapd, evt: InputEvent)
    ensures
        sd.mode_held() <==> sd.snapshot.pressed_keys@.contains(BTN_MODE),
        ({
            let x: int = if evt.code == ABS_HAT0X {
                evt.value as int
            } else {
                sd.snapshot.abs_values@[ABS_HAT0X as int] as int
            };
            let y: int = if evt.code == ABS_HAT0Y {
                evt.value as int
            } else {
                sd.snapshot.abs_values@[ABS_HAT0Y as int] as int
            };
            let max = sd.absinfos@[ABS_HAT0X as int].maximum as int;
            sd.keypos_of(evt) == keypos(max, sd.layout.cells@.len() as int, sd.layout.cells@[0]@.len() as int, x, y)
        }),
{
}

/// In the first mapping, keyboard mode sends each event's mapped keys to
/// the keyboard and gamepad mode passes each event, unchanged and alone,
/// to the gamepad.
pub proof fn lemma_grimoire_routes(evt: InputEvent)
    ensures
        grimoire::routed_events(true, evt) == grimoire::kbd_map_of(evt),
        grimoire::routed_events(false, evt) == seq![evt],
{
}

/// The keyboard's hat axes range from 0 to the number of columns and the
/// number of rows of the layout; the trackpad's axes are described as the
/// controller's right hat is, horizontal then vertical.
pub proof fn lemma_device_axes(sd: Sdmapd)
    ensures
        keyboard_axis_list(sd.layout) == seq![
            (ABS_HAT0X, AbsInfo { value: 0, minimum: 0, maximum: sd.layout.cells@[0]@.len() as i32, fuzz: 0, flat: 0, resolution: 0 }),
            (ABS_HAT0Y, AbsInfo { value: 0, minimum: 0, maximum: sd.layout.cells@.len() as i32, fuzz: 0, flat: 0, resolution: 0 }),
        ],
        trackpad_axis_list(sd.absinfos@) == seq![(ABS_X, sd.absinfos@[ABS_HAT1X as int]), (ABS_Y, sd.absinfos@[ABS_HAT1Y as int])],
{
}

/// A layout is accepted exactly when it has at least one row, all rows as
/// long as the first, and numbers of rows and columns that an `i32` holds.
pub proof fn lemma_layout_accepted(cells: Seq<Vec<[u16; 4]>>)
    ensures
        layout_wf(cells) <==> {
            &&& 1 <= cells.len() <= i32::MAX
            &&& cells[0]@.len() <= i32::MAX
            &&& forall|r: int| 0 <= r < cells.len() ==> #[trigger] cells[r]@.len() == cells[0]@.len()
        },
{
}

} // verus!
