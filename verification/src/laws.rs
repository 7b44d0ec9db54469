//! Properties of the mapping that span its functions and its batches.

use vstd::prelude::*;

use crate::codes::{
    ABS_HAT0X, ABS_HAT0Y, ABS_HAT1X, ABS_HAT1Y, ABS_X, ABS_Y, BTN_TOOL_FINGER, BTN_TOUCH, EV_ABS,
    EV_KEY, KEY_BACKSPACE, KEY_COMPOSE, KEY_DELETE, KEY_DOWN, KEY_END, KEY_ENTER, KEY_ESC,
    KEY_HOME, KEY_LEFT, KEY_LEFTALT, KEY_LEFTCTRL, KEY_LEFTMETA, KEY_LEFTSHIFT, KEY_PAGEDOWN,
    KEY_PAGEUP, KEY_RIGHT, KEY_RIGHTALT, KEY_SPACE, KEY_TAB, KEY_UP,
};
use crate::event::{abs_event, key_event, InputEvent};
use crate::grimoire;
use crate::layout::{layout_keys, lemma_hat_in_range_selects_cell, lemma_layout_key_listed, span};
use crate::sdmapd::{
    abs2trackpad_of, face_button, kbd_direct_key, keyboard_extra_keys, keyboard_key_list, meta_run,
    trackpad_accepts, trackpad_key_list, trackpad_map_of, trackpad_run, Sdmapd,
};

verus! {

/// How many events of `events` have the value 1 (presses).
pub open spec fn press_count(events: Seq<InputEvent>) -> nat
    decreases events.len(),
{
    if events.len() == 0 {
        0
    } else {
        press_count(events.drop_last()) + if events.last().value == 1 { 1nat } else { 0nat }
    }
}

/// Mode switches alternate, starting with a switch out of the mode one is
/// in; after the last switch the controller is grabbed exactly in keyboard
/// mode. With the mode button held every press switches; without it nothing
/// does.
pub proof fn lemma_mode_switches_alternate(kbd_mode: bool, mode_held: bool, events: Seq<InputEvent>)
    ensures
        ({
            let (m, grabs) = meta_run(kbd_mode, mode_held, events);
            &&& forall|i: int| 0 <= i < grabs.len() ==> #[trigger] grabs[i] == (if i % 2 == 0 {
                !kbd_mode
            } else {
                kbd_mode
            })
            &&& m == (if grabs.len() % 2 == 0 { kbd_mode } else { !kbd_mode })
            &&& grabs.len() > 0 ==> grabs.last() == m
            &&& grabs.len() == (if mode_held { press_count(events) } else { 0 })
        }),
    decreases events.len(),
{
    if events.len() > 0 {
        lemma_mode_switches_alternate(kbd_mode, mode_held, events.drop_last());
    }
}

/// Whether a finger rests on the trackpad after `events`: as the last
/// right hat event says (a non-zero position), or as before when there is
/// none.
pub open spec fn right_hat_contact(touch: bool, events: Seq<InputEvent>) -> bool
    decreases events.len(),
{
    if events.len() == 0 {
        touch
    } else if events.last().code == ABS_HAT1X || events.last().code == ABS_HAT1Y {
        events.last().value != 0
    } else {
        right_hat_contact(touch, events.drop_last())
    }
}

/// The trackpad's touch state follows the last right hat event.
pub proof fn lemma_touch_follows_right_hat(touch: bool, events: Seq<InputEvent>)
    ensures
        trackpad_run(touch, events).0 == right_hat_contact(touch, events),
    decreases events.len(),
{
    if events.len() > 0 {
        lemma_touch_follows_right_hat(touch, events.drop_last());
    }
}

/// Every change of the touch state is announced, first thing, with
/// `BTN_TOUCH` and `BTN_TOOL_FINGER` set to the new state; and `BTN_TOUCH`
/// is only ever pressed when a finger lands.
pub proof fn lemma_touch_changes_announced(touch: bool, evt: InputEvent)
    ensures
        ({
            let (t, out) = trackpad_map_of(touch, evt);
            &&& t != touch ==> out.len() == 3 && out[0] == key_event(BTN_TOUCH, if t { 1 } else { 0 })
                && out[1] == key_event(BTN_TOOL_FINGER, if t { 1 } else { 0 })
            &&& forall|j: int| 0 <= j < out.len() && #[trigger] out[j] == key_event(BTN_TOUCH, 1) ==> !touch && t
        }),
{
}

/// Everything the trackpad is sent is a key it was built with or one of
/// its two axes.
pub proof fn lemma_trackpad_sends_declared(touch: bool, events: Seq<InputEvent>)
    requires
        forall|i: int| 0 <= i < events.len() ==> #[trigger] trackpad_accepts(events[i]),
    ensures
        forall|j: int| 0 <= j < trackpad_run(touch, events).1.len() ==> {
            let e = #[trigger] trackpad_run(touch, events).1[j];
            ||| e.event_type == EV_KEY && trackpad_key_list().contains(e.code)
            ||| e.event_type == EV_ABS && (e.code == ABS_X || e.code == ABS_Y)
        },
    decreases events.len(),
{
    if events.len() > 0 {
        let pre = events.drop_last();
        assert forall|i: int| 0 <= i < pre.len() implies #[trigger] trackpad_accepts(pre[i]) by {
            assert(pre[i] == events[i]);
        }
        lemma_trackpad_sends_declared(touch, pre);
        let (t, out) = trackpad_run(touch, pre);
        let (t2, more) = trackpad_map_of(t, events.last());
        let keys = trackpad_key_list();
        broadcast use vstd::seq_lib::group_seq_properties;
        assert forall|j: int| 0 <= j < (out + more).len() implies {
            let e = #[trigger] (out + more)[j];
            ||| e.event_type == EV_KEY && keys.contains(e.code)
            ||| e.event_type == EV_ABS && (e.code == ABS_X || e.code == ABS_Y)
        } by {
            if j < out.len() {
                assert((out + more)[j] == out[j]);
            } else {
                assert((out + more)[j] == more[j - out.len()]);
            }
        }
    }
}

/// The keys that the keyboard is built with besides those of the layout.
pub open spec fn is_extra_key(k: u16) -> bool {
    ||| k == KEY_LEFTMETA
    ||| k == KEY_UP
    ||| k == KEY_DOWN
    ||| k == KEY_LEFT
    ||| k == KEY_RIGHT
    ||| k == KEY_LEFTSHIFT
    ||| k == KEY_LEFTCTRL
    ||| k == KEY_RIGHTALT
    ||| k == KEY_LEFTALT
    ||| k == KEY_TAB
    ||| k == KEY_COMPOSE
    ||| k == KEY_PAGEUP
    ||| k == KEY_PAGEDOWN
    ||| k == KEY_HOME
    ||| k == KEY_END
    ||| k == KEY_ENTER
    ||| k == KEY_ESC
    ||| k == KEY_BACKSPACE
    ||| k == KEY_SPACE
    ||| k == KEY_DELETE
}

proof fn lemma_extra_keys_listed(layout: crate::layout::VkbdLayout)
    ensures
        forall|k: u16| is_extra_key(k) ==> #[trigger] keyboard_key_list(layout).contains(k),
{
    broadcast use vstd::seq_lib::group_seq_properties;

    let l: int = layout_keys(layout.cells@).len() as int;
    let all = keyboard_key_list(layout);
    let ex = keyboard_extra_keys();
    assert forall|k: u16| is_extra_key(k) implies #[trigger] all.contains(k) by {
        assert(ex.contains(k));
        let i = choose|i: int| 0 <= i < ex.len() && ex[i] == k;
        assert(all[l + i] == ex[i]);
    }
}

/// Everything the keyboard is sent for an accepted event is a key it was
/// built with, or one of its two hat axes.
pub proof fn lemma_keyboard_sends_declared(sd: Sdmapd, evt: InputEvent)
    requires
        sd.wf(),
        sd.kbd_accepts(evt),
    ensures
        forall|j: int| 0 <= j < sd.kbd_map_of(evt).len() ==> {
            let e = #[trigger] sd.kbd_map_of(evt)[j];
            ||| e.event_type == EV_KEY && keyboard_key_list(sd.layout).contains(e.code)
            ||| e.event_type == EV_ABS && (e.code == ABS_HAT0X || e.code == ABS_HAT0Y)
        },
{
    lemma_extra_keys_listed(sd.layout);
    let out = sd.kbd_map_of(evt);
    if kbd_direct_key(evt.code) is None && evt.code != crate::codes::ABS_X && evt.code
        != crate::codes::ABS_Y && face_button(evt.code) is Some && evt.value != 0 {
        if let Some((x, y)) = sd.keypos_of(evt) {
            let (section, fallback) = face_button(evt.code).unwrap();
            lemma_layout_key_listed(sd.layout.cells@, y, x, section);
            let k = sd.layout.key_at(y, x, section);
            let lk = layout_keys(sd.layout.cells@);
            let i = choose|i: int| 0 <= i < lk.len() && lk[i] == k;
            assert(keyboard_key_list(sd.layout)[i] == k);
        }
    }
}

/// A face button press taps one key: it is pressed, then released; a face
/// button release sends nothing.
pub proof fn lemma_face_button_taps(sd: Sdmapd, evt: InputEvent)
    requires
        face_button(evt.code) is Some,
    ensures
        evt.value == 0 ==> sd.kbd_map_of(evt).len() == 0,
        evt.value != 0 ==> ({
            let out = sd.kbd_map_of(evt);
            &&& out.len() == 2
            &&& out[0] == key_event(out[0].code, 1)
            &&& out[1] == key_event(out[0].code, 0)
        }),
{
}

/// The left hat selects no cell exactly while it is at rest.
pub proof fn lemma_no_cell_at_rest(sd: Sdmapd, evt: InputEvent)
    ensures
        sd.keypos_of(evt) is None <==> sd.hat_x(evt) == 0 && sd.hat_y(evt) == 0,
{
}

/// On a controller whose left hat reports positions within its axis range
/// `-max..=max`, the face buttons are always accepted and type a key of
/// the layout, provided the span of the axis times the size of the layout
/// fits an `i32`.
pub proof fn lemma_face_buttons_accepted_in_range(sd: Sdmapd, evt: InputEvent)
    requires
        sd.wf(),
        sd.layout.cols() >= 1,
        0 <= sd.hat_max(),
        -sd.hat_max() <= sd.hat_x(evt) <= sd.hat_max(),
        -sd.hat_max() <= sd.hat_y(evt) <= sd.hat_max(),
        span(sd.hat_max()) * sd.layout.rows() <= i32::MAX,
        span(sd.hat_max()) * sd.layout.cols() <= i32::MAX,
        face_button(evt.code) is Some,
    ensures
        sd.kbd_accepts(evt),
        sd.keypos_in_layout(evt),
{
    if !(sd.hat_x(evt) == 0 && sd.hat_y(evt) == 0) {
        lemma_hat_in_range_selects_cell(sd.hat_max(), sd.layout.rows(), sd.layout.cols(), sd.hat_x(evt), sd.hat_y(evt));
    }
}

/// The first mapping only ever sends keys that its keyboard was built with.
pub proof fn lemma_grimoire_sends_declared(evt: InputEvent)
    ensures
        forall|j: int| 0 <= j < grimoire::kbd_map_of(evt).len() ==> {
            let e = #[trigger] grimoire::kbd_map_of(evt)[j];
            e.event_type == EV_KEY && grimoire::keyboard_key_list().contains(e.code)
        },
{
    broadcast use vstd::seq_lib::group_seq_properties;
}

/// The touch state after the right hat events `events`, fed in order to
/// the trackpad axis helper with output axis `abs_out` and scale `coeff`.
pub open spec fn touch_after(touch: bool, events: Seq<InputEvent>, abs_out: u16, coeff: int) -> bool
    decreases events.len(),
{
    if events.len() == 0 {
        touch
    } else {
        abs2trackpad_of(touch_after(touch, events.drop_last(), abs_out, coeff), events.last(), abs_out, coeff).0
    }
}

/// Over a run of right hat events starting with no finger on the trackpad,
/// `BTN_TOUCH` is pressed exactly where a non-zero position follows the
/// start or a zero position, released exactly at each zero position, and
/// left out otherwise; the position itself, scaled, always comes last.
pub proof fn lemma_touch_announced_once(events: Seq<InputEvent>, abs_out: u16, coeff: int, k: int)
    requires
        0 <= k < events.len(),
    ensures
        ({
            let (t, out) = abs2trackpad_of(touch_after(false, events.take(k), abs_out, coeff), events[k], abs_out, coeff);
            &&& t == (events[k].value != 0)
            &&& out.last() == abs_event(abs_out, (events[k].value * coeff) as i32)
            &&& events[k].value == 0 ==> out.len() == 3 && out[0] == key_event(BTN_TOUCH, 0) && out[1]
                == key_event(BTN_TOOL_FINGER, 0)
            &&& events[k].value != 0 && (k == 0 || events[k - 1].value == 0) ==> out.len() == 3 && out[0]
                == key_event(BTN_TOUCH, 1) && out[1] == key_event(BTN_TOOL_FINGER, 1)
            &&& events[k].value != 0 && k > 0 && events[k - 1].value != 0 ==> out.len() == 1
        }),
{
    if k > 0 {
        assert(events.take(k).last() == events[k - 1]);
    }
}

/// For events other than the left hat's own, the selected cell does not
/// depend on the event: it is read from the controller's cached state.
pub proof fn lemma_keypos_ignores_other_events(sd: Sdmapd, e1: InputEvent, e2: InputEvent)
    requires
        e1.code != ABS_HAT0X && e1.code != ABS_HAT0Y,
        e2.code != ABS_HAT0X && e2.code != ABS_HAT0Y,
    ensures
        sd.keypos_of(e1) == sd.keypos_of(e2),
        sd.keypos_ok(e1) == sd.keypos_ok(e2),
{
}

/// A repeated face button press (any non-zero value, such as an autorepeat)
/// types the same tap as the first press.
pub proof fn lemma_repeat_taps_same(sd: Sdmapd, e1: InputEvent, e2: InputEvent, section: int, fallback: u16)
    requires
        e1.code == e2.code,
        e1.code != ABS_HAT0X && e1.code != ABS_HAT0Y,
        e1.value != 0,
        e2.value != 0,
    ensures
        sd.key2vkbd_of(e1, section, fallback) == sd.key2vkbd_of(e2, section, fallback),
        face_button(e1.code) is Some ==> sd.kbd_map_of(e1) == sd.kbd_map_of(e2),
{
}

} // verus!
