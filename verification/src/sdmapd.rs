//! The mapping daemon: controller events in, virtual keyboard and virtual
//! trackpad events out.
//!
//! The controller's buttons and the right joystick drive a keyboard; the
//! left hat selects a cell of the virtual keyboard, whose keys the face
//! buttons type; the right hat moves a trackpad. The mode button together
//! with any press switches between this mode and plain gamepad mode.

use vstd::prelude::*;

use crate::codes::{
    ABS_COUNT, ABS_HAT0X, ABS_HAT0Y, ABS_HAT1X, ABS_HAT1Y, ABS_X, ABS_Y, BTN_BASE, BTN_DPAD_DOWN,
    BTN_DPAD_LEFT, BTN_DPAD_RIGHT, BTN_DPAD_UP, BTN_EAST, BTN_LEFT, BTN_MIDDLE, BTN_MODE,
    BTN_NORTH, BTN_RIGHT, BTN_SELECT, BTN_SOUTH, BTN_START, BTN_TL, BTN_TL2, BTN_TOOL_FINGER,
    BTN_TOUCH, BTN_TR, BTN_TR2, BTN_TRIGGER_HAPPY1, BTN_TRIGGER_HAPPY2, BTN_TRIGGER_HAPPY3,
    BTN_TRIGGER_HAPPY4, BTN_WEST, KEY_BACKSPACE, KEY_COMPOSE, KEY_DELETE, KEY_DOWN, KEY_END,
    KEY_ENTER, KEY_ESC, KEY_HOME, KEY_LEFT, KEY_LEFTALT, KEY_LEFTCTRL, KEY_LEFTMETA,
    KEY_LEFTSHIFT, KEY_PAGEDOWN, KEY_PAGEUP, KEY_RIGHT, KEY_RIGHTALT, KEY_SPACE, KEY_TAB, KEY_UP,
};
use crate::event::{abs_event, key_event, AbsInfo, InputEvent};
use crate::layout::{
    abs_i32, abs_int, check_keypos_arith, compute_keypos, fits_i32, keypos, keypos_arith_ok,
    VkbdLayout,
};

verus! {

/// What the daemon reads of the controller's cached state: the keys held
/// down and the value of every absolute axis.
pub struct DeviceSnapshot {
    pub pressed_keys: Vec<u16>,
    pub abs_values: Vec<i32>,
}

impl DeviceSnapshot {
    /// Whether `key` is held down.
    pub fn is_pressed(&self, key: u16) -> (res: bool)
        ensures
            res == self.pressed_keys@.contains(key),
    {
        let n: usize = self.pressed_keys.len();
        let mut i: usize = 0;
        while i < n
            invariant
                n == self.pressed_keys@.len(),
                i <= n,
                forall|j: int| 0 <= j < i ==> self.pressed_keys@[j] != key,
            decreases n - i,
        {
            if self.pressed_keys[i] == key {
                return true;
            }
            i = i + 1;
        }
        false
    }
}

/// The state of the daemon.
pub struct Sdmapd {
    /// The controller's description of each absolute axis.
    pub absinfos: Vec<AbsInfo>,
    /// The controller's cached state, as of the start of the current batch.
    pub snapshot: DeviceSnapshot,
    /// The virtual keyboard.
    pub layout: VkbdLayout,
    /// Keyboard and trackpad mode (as opposed to gamepad mode).
    pub kbd_mode: bool,
    /// A finger rests on the trackpad.
    pub touch: bool,
}

/// The key that a button stands for on the keyboard, for the buttons that
/// stand for one key.
pub open spec fn kbd_direct_key(code: u16) -> Option<u16> {
    if code == BTN_TR2 {
        Some(KEY_LEFTMETA)
    } else if code == BTN_DPAD_UP {
        Some(KEY_UP)
    } else if code == BTN_DPAD_DOWN {
        Some(KEY_DOWN)
    } else if code == BTN_DPAD_LEFT {
        Some(KEY_LEFT)
    } else if code == BTN_DPAD_RIGHT {
        Some(KEY_RIGHT)
    } else if code == BTN_TRIGGER_HAPPY1 {
        Some(KEY_LEFTSHIFT)
    } else if code == BTN_TRIGGER_HAPPY3 {
        Some(KEY_LEFTCTRL)
    } else if code == BTN_TRIGGER_HAPPY2 {
        Some(KEY_RIGHTALT)
    } else if code == BTN_TRIGGER_HAPPY4 {
        Some(KEY_LEFTALT)
    } else if code == BTN_SELECT {
        Some(KEY_TAB)
    } else if code == BTN_START {
        Some(KEY_DELETE)
    } else if code == BTN_BASE {
        Some(KEY_COMPOSE)
    } else {
        None
    }
}

/// For a face button: the section of the keyboard cell it types, and the
/// key it stands for while the left hat is at rest.
pub open spec fn face_button(code: u16) -> Option<(int, u16)> {
    if code == BTN_SOUTH {
        Some((0, KEY_ENTER))
    } else if code == BTN_EAST {
        Some((1, KEY_ESC))
    } else if code == BTN_NORTH {
        Some((2, KEY_BACKSPACE))
    } else if code == BTN_WEST {
        Some((3, KEY_SPACE))
    } else {
        None
    }
}

/// The keys of the virtual keyboard besides those of its layout.
pub open spec fn keyboard_extra_keys() -> Seq<u16> {
    seq![
        KEY_LEFTMETA, KEY_UP, KEY_DOWN, KEY_LEFT, KEY_RIGHT, KEY_LEFTSHIFT, KEY_LEFTCTRL,
        KEY_RIGHTALT, KEY_LEFTALT, KEY_TAB, KEY_COMPOSE, KEY_PAGEUP, KEY_PAGEDOWN, KEY_HOME,
        KEY_END, KEY_ENTER, KEY_ESC, KEY_BACKSPACE, KEY_SPACE, KEY_DELETE,
    ]
}

/// The keys of the virtual trackpad.
pub open spec fn trackpad_key_list() -> Seq<u16> {
    seq![BTN_RIGHT, BTN_LEFT, BTN_MIDDLE, BTN_TOUCH, BTN_TOOL_FINGER]
}

/// The mode after `evt` was read: a press of anything while the mode
/// button is held switches it.
pub open spec fn meta_step(kbd_mode: bool, mode_held: bool, evt: InputEvent) -> bool {
    if evt.value == 1 && mode_held {
        !kbd_mode
    } else {
        kbd_mode
    }
}

/// The mode after `events`, and each switch on the way: `true` for a switch
/// into keyboard mode (the controller is then grabbed), `false` for one out
/// of it (the controller is then released).
pub open spec fn meta_run(kbd_mode: bool, mode_held: bool, events: Seq<InputEvent>) -> (bool, Seq<bool>)
    decreases events.len(),
{
    if events.len() == 0 {
        (kbd_mode, Seq::empty())
    } else {
        let (m, grabs) = meta_run(kbd_mode, mode_held, events.drop_last());
        let m2 = meta_step(m, mode_held, events.last());
        if m2 != m {
            (m2, grabs.push(m2))
        } else {
            (m, grabs)
        }
    }
}

/// A trackpad axis event from the right hat: the touch state afterwards and
/// the events sent. The first contact and every lift are announced with
/// `BTN_TOUCH` and `BTN_TOOL_FINGER`; the position is scaled by `coeff`.
pub open spec fn abs2trackpad_of(touch: bool, evt: InputEvent, abs_out: u16, coeff: int) -> (bool, Seq<InputEvent>) {
    let moved = abs_event(abs_out, (evt.value * coeff) as i32);
    if evt.value == 0 {
        (false, seq![key_event(BTN_TOUCH, 0), key_event(BTN_TOOL_FINGER, 0), moved])
    } else if !touch {
        (true, seq![key_event(BTN_TOUCH, 1), key_event(BTN_TOOL_FINGER, 1), moved])
    } else {
        (touch, seq![moved])
    }
}

/// The touch state after `evt` and the trackpad events it gives.
pub open spec fn trackpad_map_of(touch: bool, evt: InputEvent) -> (bool, Seq<InputEvent>) {
    if evt.code == BTN_TL {
        (touch, seq![key_event(BTN_RIGHT, evt.value)])
    } else if evt.code == BTN_TR {
        (touch, seq![key_event(BTN_LEFT, evt.value)])
    } else if evt.code == BTN_TL2 {
        (touch, seq![key_event(BTN_MIDDLE, evt.value)])
    } else if evt.code == ABS_HAT1X {
        abs2trackpad_of(touch, evt, ABS_X, 1)
    } else if evt.code == ABS_HAT1Y {
        abs2trackpad_of(touch, evt, ABS_Y, -1)
    } else {
        (touch, Seq::empty())
    }
}

/// The touch state after `events` and the trackpad events they give, in
/// order.
pub open spec fn trackpad_run(touch: bool, events: Seq<InputEvent>) -> (bool, Seq<InputEvent>)
    decreases events.len(),
{
    if events.len() == 0 {
        (touch, Seq::empty())
    } else {
        let (t, out) = trackpad_run(touch, events.drop_last());
        let (t2, more) = trackpad_map_of(t, events.last());
        (t2, out + more)
    }
}

/// The trackpad arithmetic does not overflow on `evt`.
pub open spec fn trackpad_accepts(evt: InputEvent) -> bool {
    evt.code == ABS_HAT1Y ==> evt.value != i32::MIN
}

impl Sdmapd {
    pub open spec fn wf(&self) -> bool {
        &&& self.absinfos@.len() == ABS_COUNT
        &&& self.snapshot.abs_values@.len() == ABS_COUNT
        &&& self.layout.wf()
    }

    /// The mode button is held in the snapshot.
    pub open spec fn mode_held(&self) -> bool {
        self.snapshot.pressed_keys@.contains(BTN_MODE)
    }

    /// The maximum of the left hat's horizontal axis, which scales both axes.
    pub open spec fn hat_max(&self) -> int {
        self.absinfos@[ABS_HAT0X as int].maximum as int
    }

    /// The left hat's position: the event's value on the axis it reports,
    /// the snapshot's on the other.
    pub open spec fn hat_x(&self, evt: InputEvent) -> int {
        if evt.code == ABS_HAT0X {
            evt.value as int
        } else {
            self.snapshot.abs_values@[ABS_HAT0X as int] as int
        }
    }

    pub open spec fn hat_y(&self, evt: InputEvent) -> int {
        if evt.code == ABS_HAT0Y {
            evt.value as int
        } else {
            self.snapshot.abs_values@[ABS_HAT0Y as int] as int
        }
    }

    /// The keyboard cell `(column, row)` selected by the left hat as of `evt`.
    pub open spec fn keypos_of(&self, evt: InputEvent) -> Option<(int, int)> {
        keypos(self.hat_max(), self.layout.rows(), self.layout.cols(), self.hat_x(evt), self.hat_y(evt))
    }

    /// Computing that cell overflows no `i32`.
    pub open spec fn keypos_ok(&self, evt: InputEvent) -> bool {
        keypos_arith_ok(self.hat_max(), self.layout.rows(), self.layout.cols(), self.hat_x(evt), self.hat_y(evt))
    }

    /// The selected cell, if any, lies inside the layout.
    pub open spec fn keypos_in_layout(&self, evt: InputEvent) -> bool {
        match self.keypos_of(evt) {
            Some((x, y)) => 0 <= x < self.layout.cols() && 0 <= y < self.layout.rows(),
            None => true,
        }
    }

    /// The right joystick axis `evt.code` as two keys: at its minimum
    /// `key_min` is pressed, at its maximum `key_max`, and inside the
    /// resolution around the center both are released.
    pub open spec fn joy2keys_of(&self, evt: InputEvent, key_min: u16, key_max: u16) -> Seq<InputEvent> {
        let info = self.absinfos@[evt.code as int];
        if abs_int(evt.value as int) <= info.resolution {
            seq![key_event(key_min, 0), key_event(key_max, 0)]
        } else if evt.value == info.minimum {
            seq![key_event(key_min, 1)]
        } else if evt.value == info.maximum {
            seq![key_event(key_max, 1)]
        } else {
            Seq::empty()
        }
    }

    /// A face button press as a tap of the key in `section` of the selected
    /// cell, or of `fallback` when the left hat is at rest; releases give
    /// nothing.
    pub open spec fn key2vkbd_of(&self, evt: InputEvent, section: int, fallback: u16) -> Seq<InputEvent> {
        if evt.value == 0 {
            Seq::empty()
        } else {
            match self.keypos_of(evt) {
                Some((x, y)) => {
                    let k = self.layout.key_at(y, x, section);
                    seq![key_event(k, 1), key_event(k, 0)]
                },
                None => seq![key_event(fallback, 1), key_event(fallback, 0)],
            }
        }
    }

    /// The keyboard events that `evt` gives. Any other event reports the
    /// selected cell on the keyboard's own left hat axes.
    pub open spec fn kbd_map_of(&self, evt: InputEvent) -> Seq<InputEvent> {
        match kbd_direct_key(evt.code) {
            Some(k) => seq![key_event(k, evt.value)],
            None => if evt.code == ABS_Y {
                self.joy2keys_of(evt, KEY_PAGEUP, KEY_PAGEDOWN)
            } else if evt.code == ABS_X {
                self.joy2keys_of(evt, KEY_HOME, KEY_END)
            } else {
                match face_button(evt.code) {
                    Some((section, fallback)) => self.key2vkbd_of(evt, section, fallback),
                    None => match self.keypos_of(evt) {
                        Some((x, y)) => seq![abs_event(ABS_HAT0X, x as i32), abs_event(ABS_HAT0Y, y as i32)],
                        None => Seq::empty(),
                    },
                }
            },
        }
    }

    /// Mapping `evt` to the keyboard neither overflows nor indexes outside
    /// the layout.
    pub open spec fn kbd_accepts(&self, evt: InputEvent) -> bool {
        match kbd_direct_key(evt.code) {
            Some(_) => true,
            None => if evt.code == ABS_Y || evt.code == ABS_X {
                evt.value != i32::MIN
            } else {
                match face_button(evt.code) {
                    Some(_) => evt.value == 0 || (self.keypos_ok(evt) && self.keypos_in_layout(evt)),
                    None => self.keypos_ok(evt),
                }
            },
        }
    }

    /// The keyboard events of `events`, in order.
    pub open spec fn kbd_run(&self, events: Seq<InputEvent>) -> Seq<InputEvent>
        decreases events.len(),
    {
        if events.len() == 0 {
            Seq::empty()
        } else {
            self.kbd_run(events.drop_last()) + self.kbd_map_of(events.last())
        }
    }
}

impl Sdmapd {
    /// The daemon's state once the controller is open: keyboard mode, no
    /// finger on the trackpad.
    pub fn new(absinfos: Vec<AbsInfo>, snapshot: DeviceSnapshot, layout: VkbdLayout) -> (res: Sdmapd)
        requires
            absinfos@.len() == ABS_COUNT,
            snapshot.abs_values@.len() == ABS_COUNT,
            layout.wf(),
        ensures
            res.wf(),
            res.absinfos@ == absinfos@,
            res.snapshot.pressed_keys@ == snapshot.pressed_keys@,
            res.snapshot.abs_values@ == snapshot.abs_values@,
            res.layout.cells@ == layout.cells@,
            res.kbd_mode,
            !res.touch,
    {
        Sdmapd { absinfos, snapshot, layout, kbd_mode: true, touch: false }
    }

    /// Takes the controller's cached state for the next batch of events.
    pub fn set_snapshot(&mut self, snapshot: DeviceSnapshot)
        requires
            old(self).wf(),
            snapshot.abs_values@.len() == ABS_COUNT,
        ensures
            final(self).wf(),
            final(self).snapshot.pressed_keys@ == snapshot.pressed_keys@,
            final(self).snapshot.abs_values@ == snapshot.abs_values@,
            final(self).absinfos@ == old(self).absinfos@,
            final(self).layout.cells@ == old(self).layout.cells@,
            final(self).kbd_mode == old(self).kbd_mode,
            final(self).touch == old(self).touch,
    {
        self.snapshot = snapshot;
    }

    /// Keyboard mode is on.
    pub fn kbd_mode(&self) -> (res: bool)
        ensures
            res == self.kbd_mode,
    {
        self.kbd_mode
    }

    fn keypos_values(&self, evt: InputEvent) -> (res: Option<(i32, i32)>)
        requires
            self.wf(),
            self.keypos_ok(evt),
        ensures
            match self.keypos_of(evt) {
                Some((x, y)) => res == Some((x as i32, y as i32)) && x == x as i32 && y == y as i32,
                None => res is None,
            },
    {
        let absinfo: AbsInfo = self.absinfos[ABS_HAT0X as usize];
        let absx: i32 = if evt.code == ABS_HAT0X {
            evt.value
        } else {
            self.snapshot.abs_values[ABS_HAT0X as usize]
        };
        let absy: i32 = if evt.code == ABS_HAT0Y {
            evt.value
        } else {
            self.snapshot.abs_values[ABS_HAT0Y as usize]
        };
        compute_keypos(absinfo.maximum, self.layout.num_rows(), self.layout.num_cols(), absx, absy)
    }

    /// The position `(column, row)` on the virtual keyboard selected by the
    /// left hat as of `evt`; `None` while the hat is at rest.
    pub fn vkbd_keypos(&self, evt: InputEvent) -> (res: Option<(usize, usize)>)
        requires
            self.wf(),
            self.keypos_ok(evt),
        ensures
            match self.keypos_of(evt) {
                Some((x, y)) => res == Some((x as usize, y as usize)),
                None => res is None,
            },
    {
        match self.keypos_values(evt) {
            Some((x, y)) => Some((x as usize, y as usize)),
            None => None,
        }
    }

    /// See `joy2keys_of`.
    fn joy2keys(&self, evt: InputEvent, key_min: u16, key_max: u16) -> (res: Vec<InputEvent>)
        requires
            self.wf(),
            (evt.code as int) < ABS_COUNT,
            evt.value != i32::MIN,
        ensures
            res@ == self.joy2keys_of(evt, key_min, key_max),
    {
        let absinfo: AbsInfo = self.absinfos[evt.code as usize];
        if abs_i32(evt.value) <= absinfo.resolution {
            vec![InputEvent::new_key(key_min, 0), InputEvent::new_key(key_max, 0)]
        } else if evt.value == absinfo.minimum {
            vec![InputEvent::new_key(key_min, 1)]
        } else if evt.value == absinfo.maximum {
            vec![InputEvent::new_key(key_max, 1)]
        } else {
            vec![]
        }
    }

    /// See `key2vkbd_of`.
    fn key2vkbd(&self, evt: InputEvent, section: usize, fallback: u16) -> (res: Vec<InputEvent>)
        requires
            self.wf(),
            evt.value != 0 ==> self.keypos_ok(evt) && self.keypos_in_layout(evt),
            evt.value != 0 && self.keypos_of(evt) is Some ==> section < 4,
        ensures
            res@ == self.key2vkbd_of(evt, section as int, fallback),
    {
        if evt.value == 0 {
            vec![]
        } else if let Some(keypos) = self.vkbd_keypos(evt) {
            let key: u16 = self.layout.cells[keypos.1][keypos.0][section];
            vec![InputEvent::new_key(key, 1), InputEvent::new_key(key, 0)]
        } else {
            vec![InputEvent::new_key(fallback, 1), InputEvent::new_key(fallback, 0)]
        }
    }

    /// The keyboard events that `evt` gives; see `kbd_map_of`.
    pub fn kbd_map(&self, evt: InputEvent) -> (res: Vec<InputEvent>)
        requires
            self.wf(),
            self.kbd_accepts(evt),
        ensures
            res@ == self.kbd_map_of(evt),
    {
        let code: u16 = evt.code;
        if code == BTN_TR2 {
            vec![InputEvent::new_key(KEY_LEFTMETA, evt.value)]
        } else if code == BTN_DPAD_UP {
            vec![InputEvent::new_key(KEY_UP, evt.value)]
        } else if code == BTN_DPAD_DOWN {
            vec![InputEvent::new_key(KEY_DOWN, evt.value)]
        } else if code == BTN_DPAD_LEFT {
            vec![InputEvent::new_key(KEY_LEFT, evt.value)]
        } else if code == BTN_DPAD_RIGHT {
            vec![InputEvent::new_key(KEY_RIGHT, evt.value)]
        } else if code == BTN_TRIGGER_HAPPY1 {
            vec![InputEvent::new_key(KEY_LEFTSHIFT, evt.value)]
        } else if code == BTN_TRIGGER_HAPPY3 {
            vec![InputEvent::new_key(KEY_LEFTCTRL, evt.value)]
        } else if code == BTN_TRIGGER_HAPPY2 {
            vec![InputEvent::new_key(KEY_RIGHTALT, evt.value)]
        } else if code == BTN_TRIGGER_HAPPY4 {
            vec![InputEvent::new_key(KEY_LEFTALT, evt.value)]
        } else if code == BTN_SELECT {
            vec![InputEvent::new_key(KEY_TAB, evt.value)]
        } else if code == BTN_START {
            vec![InputEvent::new_key(KEY_DELETE, evt.value)]
        } else if code == BTN_BASE {
            vec![InputEvent::new_key(KEY_COMPOSE, evt.value)]
        } else if code == ABS_Y {
            self.joy2keys(evt, KEY_PAGEUP, KEY_PAGEDOWN)
        } else if code == ABS_X {
            self.joy2keys(evt, KEY_HOME, KEY_END)
        } else if code == BTN_SOUTH {
            self.key2vkbd(evt, 0, KEY_ENTER)
        } else if code == BTN_EAST {
            self.key2vkbd(evt, 1, KEY_ESC)
        } else if code == BTN_NORTH {
            self.key2vkbd(evt, 2, KEY_BACKSPACE)
        } else if code == BTN_WEST {
            self.key2vkbd(evt, 3, KEY_SPACE)
        } else if let Some(keypos) = self.keypos_values(evt) {
            // The left hat's cell is reported on the keyboard's own hat axes,
            // so that a front end can show where the hat points.
            vec![InputEvent::new_abs(ABS_HAT0X, keypos.0), InputEvent::new_abs(ABS_HAT0Y, keypos.1)]
        } else {
            vec![]
        }
    }
}

impl Sdmapd {
    /// Reads `evt` for the mode switch. Returns the switch, if any: `true`
    /// when keyboard mode begins (grab the controller), `false` when it ends
    /// (release the controller).
    pub fn meta_map(&mut self, evt: InputEvent) -> (grab: Option<bool>)
        requires
            old(self).wf(),
        ensures
            final(self).wf(),
            final(self).kbd_mode == meta_step(old(self).kbd_mode, old(self).mode_held(), evt),
            grab == (if final(self).kbd_mode != old(self).kbd_mode {
                Some(final(self).kbd_mode)
            } else {
                None
            }),
            final(self).absinfos == old(self).absinfos,
            final(self).snapshot == old(self).snapshot,
            final(self).layout == old(self).layout,
            final(self).touch == old(self).touch,
    {
        if evt.value == 1 && self.snapshot.is_pressed(BTN_MODE) {
            self.kbd_mode = !self.kbd_mode;
            Some(self.kbd_mode)
        } else {
            None
        }
    }

    /// Reads a batch of events for the mode switch; returns the switches in
    /// order (see `meta_map`).
    pub fn apply_meta(&mut self, events: &Vec<InputEvent>) -> (grabs: Vec<bool>)
        requires
            old(self).wf(),
        ensures
            final(self).wf(),
            (final(self).kbd_mode, grabs@) == meta_run(old(self).kbd_mode, old(self).mode_held(), events@),
            final(self).absinfos == old(self).absinfos,
            final(self).snapshot == old(self).snapshot,
            final(self).layout == old(self).layout,
            final(self).touch == old(self).touch,
    {
        let ghost start = *self;
        let mut grabs: Vec<bool> = Vec::new();
        let n: usize = events.len();
        let mut i: usize = 0;
        while i < n
            invariant
                n == events@.len(),
                i <= n,
                self.wf(),
                (self.kbd_mode, grabs@) == meta_run(start.kbd_mode, start.mode_held(), events@.take(i as int)),
                self.absinfos == start.absinfos,
                self.snapshot == start.snapshot,
                self.layout == start.layout,
                self.touch == start.touch,
            decreases n - i,
        {
            assert(events@.take(i + 1).drop_last() == events@.take(i as int));
            if let Some(grab) = self.meta_map(events[i]) {
                grabs.push(grab);
            }
            i = i + 1;
        }
        assert(events@.take(n as int) == events@);
        grabs
    }

    /// Whether `kbd_map` accepts `evt`.
    pub fn keyboard_accepts(&self, evt: InputEvent) -> (res: bool)
        requires
            self.wf(),
        ensures
            res == self.kbd_accepts(evt),
    {
        let code: u16 = evt.code;
        if code == BTN_TR2 || code == BTN_DPAD_UP || code == BTN_DPAD_DOWN || code == BTN_DPAD_LEFT
            || code == BTN_DPAD_RIGHT || code == BTN_TRIGGER_HAPPY1 || code == BTN_TRIGGER_HAPPY3
            || code == BTN_TRIGGER_HAPPY2 || code == BTN_TRIGGER_HAPPY4 || code == BTN_SELECT
            || code == BTN_START || code == BTN_BASE {
            return true;
        }
        if code == ABS_Y || code == ABS_X {
            return evt.value != i32::MIN;
        }
        let absx: i32 = if code == ABS_HAT0X {
            evt.value
        } else {
            self.snapshot.abs_values[ABS_HAT0X as usize]
        };
        let absy: i32 = if code == ABS_HAT0Y {
            evt.value
        } else {
            self.snapshot.abs_values[ABS_HAT0Y as usize]
        };
        let max: i32 = self.absinfos[ABS_HAT0X as usize].maximum;
        let rows: i32 = self.layout.num_rows();
        let cols: i32 = self.layout.num_cols();
        let ok: bool = check_keypos_arith(max, rows, cols, absx, absy);
        if code == BTN_SOUTH || code == BTN_EAST || code == BTN_NORTH || code == BTN_WEST {
            if evt.value == 0 {
                return true;
            }
            if !ok {
                return false;
            }
            match compute_keypos(max, rows, cols, absx, absy) {
                Some((x, y)) => 0 <= x && x < cols && 0 <= y && y < rows,
                None => true,
            }
        } else {
            ok
        }
    }

    /// Whether `kbd_map` accepts every event of `events`.
    pub fn keyboard_accepts_all(&self, events: &Vec<InputEvent>) -> (res: bool)
        requires
            self.wf(),
        ensures
            res == forall|i: int| 0 <= i < events@.len() ==> #[trigger] self.kbd_accepts(events@[i]),
    {
        let n: usize = events.len();
        let mut i: usize = 0;
        while i < n
            invariant
                n == events@.len(),
                i <= n,
                self.wf(),
                forall|j: int| 0 <= j < i ==> #[trigger] self.kbd_accepts(events@[j]),
            decreases n - i,
        {
            if !self.keyboard_accepts(events[i]) {
                return false;
            }
            i = i + 1;
        }
        true
    }

    /// The keyboard events of a batch, in order.
    pub fn map_keyboard(&self, events: &Vec<InputEvent>) -> (res: Vec<InputEvent>)
        requires
            self.wf(),
            forall|i: int| 0 <= i < events@.len() ==> #[trigger] self.kbd_accepts(events@[i]),
        ensures
            res@ == self.kbd_run(events@),
    {
        let mut res: Vec<InputEvent> = Vec::new();
        let n: usize = events.len();
        let mut i: usize = 0;
        while i < n
            invariant
                n == events@.len(),
                i <= n,
                self.wf(),
                forall|j: int| 0 <= j < events@.len() ==> #[trigger] self.kbd_accepts(events@[j]),
                res@ == self.kbd_run(events@.take(i as int)),
            decreases n - i,
        {
            assert(events@.take(i + 1).drop_last() == events@.take(i as int));
            let mut more: Vec<InputEvent> = self.kbd_map(events[i]);
            res.append(&mut more);
            i = i + 1;
        }
        assert(events@.take(n as int) == events@);
        res
    }

    /// See `abs2trackpad_of`.
    fn abs2trackpad(&mut self, evt: InputEvent, abs_out: u16, coeff: i32) -> (res: Vec<InputEvent>)
        requires
            old(self).wf(),
            fits_i32(evt.value * coeff),
        ensures
            final(self).wf(),
            (final(self).touch, res@) == abs2trackpad_of(old(self).touch, evt, abs_out, coeff as int),
            final(self).touch == (evt.value != 0),
            final(self).absinfos == old(self).absinfos,
            final(self).snapshot == old(self).snapshot,
            final(self).layout == old(self).layout,
            final(self).kbd_mode == old(self).kbd_mode,
    {
        let touched: i32 = if evt.value == 0 {
            0
        } else if !self.touch {
            1
        } else {
            -1
        };
        let mut res: Vec<InputEvent> = if touched >= 0 {
            self.touch = touched != 0;
            vec![InputEvent::new_key(BTN_TOUCH, touched), InputEvent::new_key(BTN_TOOL_FINGER, touched)]
        } else {
            vec![]
        };
        res.push(InputEvent::new_abs(abs_out, evt.value * coeff));
        res
    }

    /// The trackpad events that `evt` gives; see `trackpad_map_of`.
    pub fn trackpad_map(&mut self, evt: InputEvent) -> (res: Vec<InputEvent>)
        requires
            old(self).wf(),
            trackpad_accepts(evt),
        ensures
            final(self).wf(),
            (final(self).touch, res@) == trackpad_map_of(old(self).touch, evt),
            final(self).absinfos == old(self).absinfos,
            final(self).snapshot == old(self).snapshot,
            final(self).layout == old(self).layout,
            final(self).kbd_mode == old(self).kbd_mode,
    {
        let code: u16 = evt.code;
        if code == BTN_TL {
            vec![InputEvent::new_key(BTN_RIGHT, evt.value)]
        } else if code == BTN_TR {
            vec![InputEvent::new_key(BTN_LEFT, evt.value)]
        } else if code == BTN_TL2 {
            vec![InputEvent::new_key(BTN_MIDDLE, evt.value)]
        } else if code == ABS_HAT1X {
            self.abs2trackpad(evt, ABS_X, 1)
        } else if code == ABS_HAT1Y {
            self.abs2trackpad(evt, ABS_Y, -1)
        } else {
            vec![]
        }
    }

    /// The trackpad events of a batch, in order.
    pub fn map_trackpad(&mut self, events: &Vec<InputEvent>) -> (res: Vec<InputEvent>)
        requires
            old(self).wf(),
            forall|i: int| 0 <= i < events@.len() ==> #[trigger] trackpad_accepts(events@[i]),
        ensures
            final(self).wf(),
            (final(self).touch, res@) == trackpad_run(old(self).touch, events@),
            final(self).absinfos == old(self).absinfos,
            final(self).snapshot == old(self).snapshot,
            final(self).layout == old(self).layout,
            final(self).kbd_mode == old(self).kbd_mode,
    {
        let ghost start = *self;
        let mut res: Vec<InputEvent> = Vec::new();
        let n: usize = events.len();
        let mut i: usize = 0;
        while i < n
            invariant
                n == events@.len(),
                i <= n,
                self.wf(),
                forall|j: int| 0 <= j < events@.len() ==> #[trigger] trackpad_accepts(events@[j]),
                (self.touch, res@) == trackpad_run(start.touch, events@.take(i as int)),
                self.absinfos == start.absinfos,
                self.snapshot == start.snapshot,
                self.layout == start.layout,
                self.kbd_mode == start.kbd_mode,
            decreases n - i,
        {
            assert(events@.take(i + 1).drop_last() == events@.take(i as int));
            let mut more: Vec<InputEvent> = self.trackpad_map(events[i]);
            res.append(&mut more);
            i = i + 1;
        }
        assert(events@.take(n as int) == events@);
        res
    }
}

/// Whether `trackpad_map` accepts every event of `events`.
pub fn trackpad_accepts_all(events: &Vec<InputEvent>) -> (res: bool)
    ensures
        res == forall|i: int| 0 <= i < events@.len() ==> #[trigger] trackpad_accepts(events@[i]),
{
    let n: usize = events.len();
    let mut i: usize = 0;
    while i < n
        invariant
            n == events@.len(),
            i <= n,
            forall|j: int| 0 <= j < i ==> #[trigger] trackpad_accepts(events@[j]),
        decreases n - i,
    {
        if events[i].code == ABS_HAT1Y && events[i].value == i32::MIN {
            assert(!trackpad_accepts(events@[i as int]));
            return false;
        }
        i = i + 1;
    }
    true
}

/// The description of an axis reporting positions `0..=maximum`.
pub open spec fn axis_upto(maximum: int) -> AbsInfo {
    AbsInfo { value: 0, minimum: 0, maximum: maximum as i32, fuzz: 0, flat: 0, resolution: 0 }
}

/// The keys that the virtual keyboard is built with: those of the layout,
/// then the others that the mapping types.
pub open spec fn keyboard_key_list(layout: VkbdLayout) -> Seq<u16> {
    crate::layout::layout_keys(layout.cells@) + keyboard_extra_keys()
}

/// The absolute axes of the virtual keyboard: the left hat's axes, ranging
/// over the columns and the rows of the layout.
pub open spec fn keyboard_axis_list(layout: VkbdLayout) -> Seq<(u16, AbsInfo)> {
    seq![(ABS_HAT0X, axis_upto(layout.cols())), (ABS_HAT0Y, axis_upto(layout.rows()))]
}

/// The absolute axes of the virtual trackpad, described as the controller
/// describes its right hat.
pub open spec fn trackpad_axis_list(absinfos: Seq<AbsInfo>) -> Seq<(u16, AbsInfo)> {
    seq![(ABS_X, absinfos[ABS_HAT1X as int]), (ABS_Y, absinfos[ABS_HAT1Y as int])]
}

impl Sdmapd {
    /// The keys that the virtual keyboard is built with.
    pub fn keyboard_keys(&self) -> (res: Vec<u16>)
        ensures
            res@ == keyboard_key_list(self.layout),
    {
        let mut res: Vec<u16> = self.layout.keys();
        let mut extra: Vec<u16> = vec![
            KEY_LEFTMETA, KEY_UP, KEY_DOWN, KEY_LEFT, KEY_RIGHT, KEY_LEFTSHIFT, KEY_LEFTCTRL,
            KEY_RIGHTALT, KEY_LEFTALT, KEY_TAB, KEY_COMPOSE, KEY_PAGEUP, KEY_PAGEDOWN, KEY_HOME,
            KEY_END, KEY_ENTER, KEY_ESC, KEY_BACKSPACE, KEY_SPACE, KEY_DELETE,
        ];
        res.append(&mut extra);
        res
    }

    /// The absolute axes of the virtual keyboard: the left hat's axes,
    /// ranging over the columns and the rows of the layout.
    pub fn keyboard_axes(&self) -> (res: Vec<(u16, AbsInfo)>)
        requires
            self.wf(),
        ensures
            res@ == keyboard_axis_list(self.layout),
    {
        let cols: i32 = self.layout.num_cols();
        let rows: i32 = self.layout.num_rows();
        vec![(ABS_HAT0X, AbsInfo::new(0, 0, cols, 0, 0, 0)), (ABS_HAT0Y, AbsInfo::new(0, 0, rows, 0, 0, 0))]
    }

    /// The absolute axes of the virtual trackpad: its horizontal and
    /// vertical axes, described as the controller describes its right hat.
    pub fn trackpad_axes(&self) -> (res: Vec<(u16, AbsInfo)>)
        requires
            self.wf(),
        ensures
            res@ == trackpad_axis_list(self.absinfos@),
    {
        vec![(ABS_X, self.absinfos[ABS_HAT1X as usize]), (ABS_Y, self.absinfos[ABS_HAT1Y as usize])]
    }
}

/// The keys that the virtual trackpad is built with.
pub fn trackpad_keys() -> (res: Vec<u16>)
    ensures
        res@ == trackpad_key_list(),
{
    vec![BTN_RIGHT, BTN_LEFT, BTN_MIDDLE, BTN_TOUCH, BTN_TOOL_FINGER]
}

/// What to do after a batch of controller events: grab (`true`) or release
/// (`false`) the controller at each mode switch, in order; then, if `send`,
/// send `keyboard` to the virtual keyboard and `trackpad` to the virtual
/// trackpad.
pub struct BatchOutput {
    pub grabs: Vec<bool>,
    pub send: bool,
    pub keyboard: Vec<InputEvent>,
    pub trackpad: Vec<InputEvent>,
}

impl Sdmapd {
    /// Handling `events` neither overflows nor indexes outside the layout:
    /// the events need to be accepted by both mappings when the batch ends
    /// in keyboard mode.
    pub open spec fn batch_accepts(&self, events: Seq<InputEvent>) -> bool {
        meta_run(self.kbd_mode, self.mode_held(), events).0 ==> {
            &&& forall|i: int| 0 <= i < events.len() ==> #[trigger] self.kbd_accepts(events[i])
            &&& forall|i: int| 0 <= i < events.len() ==> #[trigger] trackpad_accepts(events[i])
        }
    }

    /// The keyboard mapping reads neither the mode nor the touch state.
    proof fn lemma_kbd_run_ignores_modes(self, other: Sdmapd, events: Seq<InputEvent>)
        requires
            self.absinfos == other.absinfos,
            self.snapshot == other.snapshot,
            self.layout == other.layout,
        ensures
            self.kbd_run(events) == other.kbd_run(events),
        decreases events.len(),
    {
        if events.len() > 0 {
            self.lemma_kbd_run_ignores_modes(other, events.drop_last());
        }
    }

    /// Whether `handle_batch` accepts `events`.
    pub fn batch_accepted(&self, events: &Vec<InputEvent>) -> (res: bool)
        requires
            self.wf(),
        ensures
            res == self.batch_accepts(events@),
    {
        let held: bool = self.snapshot.is_pressed(BTN_MODE);
        let mut mode: bool = self.kbd_mode;
        let n: usize = events.len();
        let mut i: usize = 0;
        while i < n
            invariant
                n == events@.len(),
                i <= n,
                held == self.mode_held(),
                mode == meta_run(self.kbd_mode, held, events@.take(i as int)).0,
            decreases n - i,
        {
            assert(events@.take(i + 1).drop_last() == events@.take(i as int));
            if events[i].value == 1 && held {
                mode = !mode;
            }
            i = i + 1;
        }
        assert(events@.take(n as int) == events@);
        if !mode {
            return true;
        }
        let kbd_ok: bool = self.keyboard_accepts_all(events);
        let pad_ok: bool = trackpad_accepts_all(events);
        kbd_ok && pad_ok
    }

    /// Handles one batch of controller events: first every event is read
    /// for the mode switch; then, in keyboard mode, the batch is mapped to
    /// the keyboard and to the trackpad. In gamepad mode nothing is sent.
    pub fn handle_batch(&mut self, events: &Vec<InputEvent>) -> (res: BatchOutput)
        requires
            old(self).wf(),
            old(self).batch_accepts(events@),
        ensures
            final(self).wf(),
            (final(self).kbd_mode, res.grabs@) == meta_run(old(self).kbd_mode, old(self).mode_held(), events@),
            res.send == final(self).kbd_mode,
            res.send ==> res.keyboard@ == old(self).kbd_run(events@),
            res.send ==> (final(self).touch, res.trackpad@) == trackpad_run(old(self).touch, events@),
            !res.send ==> res.keyboard@.len() == 0 && res.trackpad@.len() == 0,
            !res.send ==> final(self).touch == old(self).touch,
            final(self).absinfos == old(self).absinfos,
            final(self).snapshot == old(self).snapshot,
            final(self).layout == old(self).layout,
    {
        let ghost start = *self;
        let grabs: Vec<bool> = self.apply_meta(events);
        if !self.kbd_mode {
            return BatchOutput { grabs, send: false, keyboard: Vec::new(), trackpad: Vec::new() };
        }
        assert forall|i: int| 0 <= i < events@.len() implies #[trigger] self.kbd_accepts(events@[i]) by {
            assert(start.kbd_accepts(events@[i]));
        }
        assert(self.kbd_run(events@) == start.kbd_run(events@)) by {
            self.lemma_kbd_run_ignores_modes(start, events@);
        }
        let keyboard: Vec<InputEvent> = self.map_keyboard(events);
        let trackpad: Vec<InputEvent> = self.map_trackpad(events);
        BatchOutput { grabs, send: true, keyboard, trackpad }
    }
}

} // verus!
