//! The event types and codes of Linux input devices that are told apart here.

use vstd::prelude::*;

verus! {

pub const EV_KEY: u16 = 0x01;

pub const EV_REL: u16 = 0x02;

pub const EV_ABS: u16 = 0x03;

pub const KEY_ENTER: u16 = 28;

pub const KEY_A: u16 = 30;

/// The first code of a button of any kind of device.
pub const BTN_MISC: u16 = 0x100;

pub const BTN_LEFT: u16 = 0x110;

pub const BTN_RIGHT: u16 = 0x111;

pub const BTN_MIDDLE: u16 = 0x112;

/// The last code of a mouse button.
pub const BTN_TASK: u16 = 0x117;

/// The last code before those of keys begin again.
pub const BTN_LAST: u16 = 0x15f;

pub const REL_X: u16 = 0x00;

pub const REL_Y: u16 = 0x01;

pub const REL_HWHEEL: u16 = 0x06;

pub const REL_WHEEL: u16 = 0x08;

pub const ABS_X: u16 = 0x00;

pub const ABS_Y: u16 = 0x01;

/// An event as a Linux input device reports it.
#[derive(Clone, Copy, Debug, PartialEq, Eq, Structural)]
pub struct RawEvent {
    pub kind: u16,
    pub code: u16,
    pub value: i32,
}

} // verus!
