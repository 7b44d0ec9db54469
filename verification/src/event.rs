//! Input events and absolute axis descriptions as plain values.

use vstd::prelude::*;
use crate::codes::{EV_ABS, EV_KEY};

verus! {

/// One input event: its type, its code and its value. The time stamp of
/// an emitted event is left to the kernel, so it is not held here.
#[derive(Clone, Copy, Debug, PartialEq, Eq, Structural)]
pub struct InputEvent {
    pub event_type: u16,
    pub code: u16,
    pub value: i32,
}

/// The description of an absolute axis (`input_absinfo`).
#[derive(Clone, Copy, Debug, PartialEq, Eq, Structural)]
pub struct AbsInfo {
    pub value: i32,
    pub minimum: i32,
    pub maximum: i32,
    pub fuzz: i32,
    pub flat: i32,
    pub resolution: i32,
}

/// A key event for `code` with `value` (0 released, 1 pressed).
pub open spec fn key_event(code: u16, value: i32) -> InputEvent {
    InputEvent { event_type: EV_KEY, code, value }
}

/// An absolute axis event for axis `code` at `value`.
pub open spec fn abs_event(code: u16, value: i32) -> InputEvent {
    InputEvent { event_type: EV_ABS, code, value }
}

impl InputEvent {
    pub fn new(event_type: u16, code: u16, value: i32) -> (res: InputEvent)
        ensures
            res == (InputEvent { event_type, code, value }),
    {
        InputEvent { event_type, code, value }
    }

    /// A key event.
    pub fn new_key(code: u16, value: i32) -> (res: InputEvent)
        ensures
            res == key_event(code, value),
    {
        InputEvent { event_type: EV_KEY, code, value }
    }

    /// An absolute axis event.
    pub fn new_abs(code: u16, value: i32) -> (res: InputEvent)
        ensures
            res == abs_event(code, value),
    {
        InputEvent { event_type: EV_ABS, code, value }
    }
}

impl AbsInfo {
    pub fn new(value: i32, minimum: i32, maximum: i32, fuzz: i32, flat: i32, resolution: i32) -> (res: AbsInfo)
        ensures
            res == (AbsInfo { value, minimum, maximum, fuzz, flat, resolution }),
    {
        AbsInfo { value, minimum, maximum, fuzz, flat, resolution }
    }
}

} // verus!
