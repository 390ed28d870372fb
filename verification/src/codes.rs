//! Event types and codes of the Linux input subsystem.
use vstd::prelude::*;

verus! {

/// Event type that closes a group of events.
pub const EV_SYN: u16 = 0x00;

/// Event type of keys and buttons.
pub const EV_KEY: u16 = 0x01;

/// Event type of relative axes.
pub const EV_REL: u16 = 0x02;

/// Event type of absolute axes.
pub const EV_ABS: u16 = 0x03;

pub const REL_X: u16 = 0x00;

pub const REL_Y: u16 = 0x01;

pub const REL_HWHEEL: u16 = 0x06;

pub const REL_WHEEL: u16 = 0x08;

pub const ABS_X: u16 = 0x00;

pub const ABS_Y: u16 = 0x01;

pub const KEY_ENTER: u16 = 28;

pub const KEY_A: u16 = 30;

pub const KEY_SPACE: u16 = 57;

pub const KEY_SCROLLLOCK: u16 = 70;

pub const BTN_LEFT: u16 = 0x110;

pub const BTN_RIGHT: u16 = 0x111;

pub const BTN_MIDDLE: u16 = 0x112;

pub const BTN_SIDE: u16 = 0x113;

pub const BTN_EXTRA: u16 = 0x114;

pub const BTN_FORWARD: u16 = 0x115;

pub const BTN_BACK: u16 = 0x116;

} // verus!
