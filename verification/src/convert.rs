//! From kernel input events to the events that are shared between machines.
use crate::codes::{
    BTN_BACK, BTN_EXTRA, BTN_FORWARD, BTN_LEFT, BTN_MIDDLE, BTN_RIGHT, BTN_SIDE, EV_KEY, EV_REL,
    KEY_A, KEY_ENTER, KEY_SPACE, REL_HWHEEL, REL_WHEEL, REL_X, REL_Y,
};
use crate::events::{
    InputEvent, KeyboardEvent, ModifierState, MouseButtonEvent, MouseMoveEvent, MouseMovement,
    MouseWheelEvent, ScrollAmount,
};
use crate::kernel::{event_kind, has_event_type, has_key, EventKind};
use vstd::prelude::*;

verus! {

/// How long after the Unix epoch something happened.
#[derive(Debug, Clone, Copy, PartialEq, Eq, Structural)]
pub struct SinceEpoch {
    pub seconds: u64,
    pub nanos: u32,
}

/// An event as the kernel reports it.
#[derive(Debug, Clone, Copy, PartialEq, Eq, Structural)]
pub struct RawEvent {
    /// When the event happened, unless that was before the Unix epoch.
    pub timestamp: Option<SinceEpoch>,
    pub event_type: u16,
    pub code: u16,
    pub value: i32,
}

/// A timestamp in milliseconds, in 64 bits. What happened before the epoch is
/// taken to have happened at the epoch.
pub open spec fn millis_of(timestamp: Option<SinceEpoch>) -> u64 {
    match timestamp {
        Some(t) => ((t.seconds * 1000 + t.nanos / 1_000_000) % 0x1_0000_0000_0000_0000) as u64,
        None => 0,
    }
}

/// The milliseconds of a timestamp.
pub fn millis(timestamp: Option<SinceEpoch>) -> (r: u64)
    ensures
        r == millis_of(timestamp),
        timestamp matches Some(t) ==> (t.seconds * 1000 + t.nanos / 1_000_000 - r)
            % 0x1_0000_0000_0000_0000 == 0,
        timestamp is None ==> r == 0,
{
    match timestamp {
        Some(t) => {
            let whole: u128 = (t.seconds as u128) * 1000 + (t.nanos / 1_000_000) as u128;
            assert(whole as u64 == whole % 0x1_0000_0000_0000_0000) by (bit_vector);
            proof {
                crate::convert_laws::law_timestamps_are_milliseconds(t);
            }
            whole as u64
        },
        None => 0,
    }
}

/// The codes of mouse buttons.
pub open spec fn mouse_button(code: u16) -> bool {
    code == BTN_LEFT || code == BTN_RIGHT || code == BTN_MIDDLE || code == BTN_SIDE || code
        == BTN_EXTRA || code == BTN_FORWARD || code == BTN_BACK
}

/// Checks if a key is a mouse button.
pub fn is_mouse_button(code: u16) -> (r: bool)
    ensures
        r == mouse_button(code),
        r == (0x110 <= code <= 0x116),
{
    code == BTN_LEFT || code == BTN_RIGHT || code == BTN_MIDDLE || code == BTN_SIDE || code
        == BTN_EXTRA || code == BTN_FORWARD || code == BTN_BACK
}

/// The shared event that a kernel event turns into, if it turns into one.
///
/// A mouse button is pressed exactly when the value is 1. Any other key keeps its
/// value, and its repeats are left out. The two movement axes and the two wheels
/// give one event per axis. Nothing else is shared.
pub open spec fn converted(event: RawEvent) -> Option<InputEvent> {
    let time = millis_of(event.timestamp);
    if event.event_type == EV_KEY {
        if mouse_button(event.code) {
            Some(
                InputEvent::MouseButton(
                    MouseButtonEvent {
                        time,
                        button: event.code as u32,
                        pressed: event.value == 1,
                    },
                ),
            )
        } else if event.value == 2 {
            None
        } else {
            Some(
                InputEvent::Keyboard(
                    KeyboardEvent {
                        time,
                        key: event.code as u32,
                        pressed: event.value == 1,
                        raw_value: event.value,
                        modifiers: crate::events::no_modifiers(),
                    },
                ),
            )
        }
    } else if event.event_type == EV_REL {
        if event.code == REL_X {
            Some(moved(time, event.value, 0))
        } else if event.code == REL_Y {
            Some(moved(time, 0, event.value))
        } else if event.code == REL_HWHEEL {
            Some(scrolled(time, event.value, 0))
        } else if event.code == REL_WHEEL {
            Some(scrolled(time, 0, event.value))
        } else {
            None
        }
    } else {
        None
    }
}

/// A relative movement.
pub open spec fn moved(time: u64, dx: i32, dy: i32) -> InputEvent {
    InputEvent::MouseMove(MouseMoveEvent { time, movement: MouseMovement::Relative { dx, dy } })
}

/// A turn of the wheels.
pub open spec fn scrolled(time: u64, dx: i32, dy: i32) -> InputEvent {
    InputEvent::MouseWheel(
        MouseWheelEvent { time, dx: ScrollAmount::of(dx), dy: ScrollAmount::of(dy) },
    )
}

/// Converts a kernel event to a shared event.
pub fn convert_event(event: &RawEvent) -> (r: Option<InputEvent>)
    ensures
        r == converted(*event),
        r is Some <==> {
            ||| event.event_type == 1 && (event.value != 2 || 0x110 <= event.code <= 0x116)
            ||| event.event_type == 2 && (event.code == 0 || event.code == 1 || event.code == 6
                || event.code == 8)
        },
{
    let time: u64 = millis(event.timestamp);
    match event_kind(event.event_type, event.code) {
        EventKind::Key(code) => {
            if is_mouse_button(code) {
                Some(
                    InputEvent::MouseButton(
                        MouseButtonEvent {
                            time,
                            button: code as u32,
                            pressed: event.value == 1,
                        },
                    ),
                )
            } else if event.value == 2 {
                None
            } else {
                Some(
                    InputEvent::Keyboard(
                        KeyboardEvent {
                            time,
                            key: code as u32,
                            pressed: event.value == 1,
                            raw_value: event.value,
                            modifiers: ModifierState::default(),
                        },
                    ),
                )
            }
        },
        EventKind::RelAxis(axis) => {
            if axis == REL_X || axis == REL_Y {
                let (dx, dy): (i32, i32) = if axis == REL_X {
                    (event.value, 0)
                } else {
                    (0, event.value)
                };
                Some(
                    InputEvent::MouseMove(
                        MouseMoveEvent { time, movement: MouseMovement::Relative { dx, dy } },
                    ),
                )
            } else if axis == REL_WHEEL || axis == REL_HWHEEL {
                let (dx, dy): (i32, i32) = if axis == REL_HWHEEL {
                    (event.value, 0)
                } else {
                    (0, event.value)
                };
                Some(
                    InputEvent::MouseWheel(
                        MouseWheelEvent {
                            time,
                            dx: ScrollAmount::from_notches(dx),
                            dy: ScrollAmount::from_notches(dy),
                        },
                    ),
                )
            } else {
                None
            }
        },
        EventKind::Other => None,
    }
}

/// Whether a device with these event types and keys is a keyboard or a mouse: it
/// has a common key or a common button, or it moves along relative axes.
pub open spec fn keyboard_or_mouse(types: Set<u16>, keys: Option<Set<u16>>) -> bool {
    ||| types.contains(EV_REL)
    ||| {
        &&& types.contains(EV_KEY)
        &&& keys matches Some(codes)
        &&& exists|code: u16| codes.contains(code) && #[trigger] telling_key(code)
    }
}

/// The keys by which a keyboard or a mouse is recognised.
pub open spec fn telling_key(code: u16) -> bool {
    code == KEY_A || code == KEY_ENTER || code == KEY_SPACE || code == BTN_LEFT || code
        == BTN_RIGHT || code == BTN_MIDDLE
}

/// Checks if a device is a keyboard or mouse, by the event types and the keys that
/// it supports.
pub fn is_keyboard_or_mouse(
    supported_events: &evdev::AttributeSetRef<evdev::EventType>,
    supported_keys: Option<&evdev::AttributeSetRef<evdev::Key>>,
) -> (r: bool)
    ensures
        r == keyboard_or_mouse(
            crate::kernel::event_types(supported_events),
            match supported_keys {
                Some(keys) => Some(crate::kernel::key_codes(keys)),
                None => None,
            },
        ),
        r == ({
            ||| crate::kernel::event_types(supported_events).contains(2)
            ||| {
                &&& crate::kernel::event_types(supported_events).contains(1)
                &&& supported_keys matches Some(keys)
                &&& {
                    let codes = crate::kernel::key_codes(keys);
                    ||| codes.contains(30) || codes.contains(28) || codes.contains(57)
                    ||| codes.contains(0x110) || codes.contains(0x111) || codes.contains(0x112)
                }
            }
        }),
{
    if has_event_type(supported_events, EV_KEY) {
        if let Some(keys) = supported_keys {
            assert(telling_key(KEY_A) && telling_key(KEY_ENTER) && telling_key(KEY_SPACE));
            assert(telling_key(BTN_LEFT) && telling_key(BTN_RIGHT) && telling_key(BTN_MIDDLE));
            if has_key(keys, KEY_A) || has_key(keys, KEY_ENTER) || has_key(keys, KEY_SPACE) {
                return true;
            }
            if has_key(keys, BTN_LEFT) || has_key(keys, BTN_RIGHT) || has_key(keys, BTN_MIDDLE) {
                return true;
            }
        }
    }
    if has_event_type(supported_events, EV_REL) {
        return true;
    }
    false
}

} // verus!
