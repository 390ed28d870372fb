//! What holds of every kernel event and of every device, in the numbers of the kernel.
use crate::convert::{converted, keyboard_or_mouse, millis_of, mouse_button, RawEvent, SinceEpoch};
use crate::events::{InputEvent, MouseMovement};
use vstd::prelude::*;

verus! {

/// No input is lost: every press and every release of a key or a button is converted, and
/// so is every event of the two movement axes and of the two wheels.
pub proof fn law_conversion_is_complete(event: RawEvent)
    ensures
        event.event_type == 1 && (event.value == 0 || event.value == 1) ==> converted(
            event,
        ) is Some,
        event.event_type == 1 && event.value != 2 ==> converted(event) is Some,
        event.event_type == 1 && 0x110 <= event.code <= 0x116 ==> converted(event) is Some,
        event.event_type == 2 && (event.code == 0 || event.code == 1 || event.code == 6
            || event.code == 8) ==> converted(event) is Some,
{
}

/// Nothing else is shared: repeats of keys, other relative axes, and events of other types
/// are not converted.
pub proof fn law_nothing_else_is_converted(event: RawEvent)
    ensures
        event.event_type == 1 && event.value == 2 && (event.code < 0x110 || event.code > 0x116)
            ==> converted(event) is None,
        event.event_type == 2 && event.code != 0 && event.code != 1 && event.code != 6
            && event.code != 8 ==> converted(event) is None,
        event.event_type != 1 && event.event_type != 2 ==> converted(event) is None,
{
}

/// A key is converted with its own code and value: every key but a mouse button, unless it
/// is repeated.
pub proof fn law_key_is_kept(event: RawEvent)
    requires
        event.event_type == 1,
        event.code < 0x110 || event.code > 0x116,
        event.value != 2,
    ensures
        converted(event) matches Some(InputEvent::Keyboard(key)) && {
            &&& key.key == event.code
            &&& key.raw_value == event.value
            &&& key.pressed <==> event.value == 1
            &&& key.time == millis_of(event.timestamp)
            &&& !key.modifiers.shift && !key.modifiers.ctrl
            &&& !key.modifiers.alt && !key.modifiers.meta
        },
{
}

/// A mouse button is converted with its own code, and is pressed exactly for the value 1.
pub proof fn law_button_is_kept(event: RawEvent)
    requires
        event.event_type == 1,
        0x110 <= event.code <= 0x116,
    ensures
        converted(event) matches Some(InputEvent::MouseButton(button)) && {
            &&& button.button == event.code
            &&& button.pressed <==> event.value == 1
            &&& button.time == millis_of(event.timestamp)
        },
        mouse_button(event.code),
{
}

/// The mouse buttons are the seven codes from the left button on.
pub proof fn law_mouse_buttons(code: u16)
    ensures
        mouse_button(code) <==> 0x110 <= code <= 0x116,
{
}

/// A movement is converted with its amount on its own axis, and with none on the other.
pub proof fn law_movement_is_kept(event: RawEvent)
    requires
        event.event_type == 2,
        event.code == 0 || event.code == 1,
    ensures
        converted(event) matches Some(InputEvent::MouseMove(moved)) && {
            &&& moved.time == millis_of(event.timestamp)
            &&& moved.movement matches MouseMovement::Relative { dx, dy } && {
                &&& event.code == 0 ==> dx == event.value && dy == 0
                &&& event.code == 1 ==> dy == event.value && dx == 0
            }
        },
{
}

/// A turn of a wheel is converted with its notches on its own wheel, and the other wheel
/// has not turned. A wheel has turned exactly by a number of notches other than 0.
pub proof fn law_wheel_is_kept(event: RawEvent)
    requires
        event.event_type == 2,
        event.code == 6 || event.code == 8,
    ensures
        converted(event) matches Some(InputEvent::MouseWheel(wheel)) && {
            let (own, other) = if event.code == 8 {
                (wheel.dy, wheel.dx)
            } else {
                (wheel.dx, wheel.dy)
            };
            &&& wheel.time == millis_of(event.timestamp)
            &&& own.notches == event.value
            &&& own.moved <==> event.value != 0
            &&& other.notches == 0
            &&& !other.moved
        },
{
}

/// The conversion forgets nothing: two events that are converted to the same shared event
/// are of the same kind, and if they are keys, or if their value is not 0 and they are no
/// buttons, they have the same code and the same value.
pub proof fn law_conversion_tells_events_apart(first: RawEvent, second: RawEvent)
    requires
        converted(first) is Some,
        converted(first) == converted(second),
    ensures
        first.event_type == second.event_type,
        converted(first)->0 is Keyboard ==> first.code == second.code && first.value
            == second.value,
        converted(first)->0 is MouseButton ==> first.code == second.code && (first.value == 1
            <==> second.value == 1),
        first.event_type == 2 && first.value != 0 ==> first.code == second.code && first.value
            == second.value,
        millis_of(first.timestamp) == millis_of(second.timestamp),
{
}

/// A timestamp is the whole milliseconds that have passed since the epoch, in 64 bits. As
/// long as they fit, they lie within a millisecond of the time itself.
pub proof fn law_timestamps_are_milliseconds(time: SinceEpoch)
    ensures
        (time.seconds * 1000 + time.nanos / 1_000_000 - millis_of(Some(time)))
            % 0x1_0000_0000_0000_0000 == 0,
        time.seconds * 1000 + time.nanos / 1_000_000 <= u64::MAX ==> {
            let nanos = time.seconds * 1_000_000_000 + time.nanos;
            millis_of(Some(time)) * 1_000_000 <= nanos < (millis_of(Some(time)) + 1) * 1_000_000
        },
        millis_of(None) == 0,
{
    let whole = time.seconds * 1000 + time.nanos / 1_000_000;
    let wrapped = whole % 0x1_0000_0000_0000_0000;
    assert(wrapped as u64 == wrapped);
    assert((whole - wrapped) % 0x1_0000_0000_0000_0000 == 0) by (nonlinear_arith)
        requires
            wrapped == whole % 0x1_0000_0000_0000_0000,
    ;
}

/// Any one telling key is enough: a device that reports keys, and has the A, the Enter or
/// the space key, or the left, the right or the middle button, is a keyboard or a mouse,
/// whatever else it supports.
pub proof fn law_telling_key_is_enough(types: Set<u16>, keys: Set<u16>, code: u16)
    requires
        types.contains(1),
        keys.contains(code),
        code == 30 || code == 28 || code == 57 || code == 0x110 || code == 0x111 || code == 0x112,
    ensures
        keyboard_or_mouse(types, Some(keys)),
{
    assert(crate::convert::telling_key(code));
}

/// Relative axes are enough: a device that reports them is a mouse, whatever keys it has.
pub proof fn law_relative_axes_are_enough(types: Set<u16>, keys: Option<Set<u16>>)
    requires
        types.contains(2),
    ensures
        keyboard_or_mouse(types, keys),
{
}

/// Nothing else is captured: a device without relative axes that reports no keys, or has
/// none of the telling ones, is neither a keyboard nor a mouse.
pub proof fn law_other_devices_are_left_alone(types: Set<u16>, keys: Option<Set<u16>>)
    requires
        !types.contains(2),
        !types.contains(1) || keys is None || {
            let codes = keys->0;
            &&& !codes.contains(30) && !codes.contains(28) && !codes.contains(57)
            &&& !codes.contains(0x110) && !codes.contains(0x111) && !codes.contains(0x112)
        },
    ensures
        !keyboard_or_mouse(types, keys),
{
}

/// A device that can do more is still recognised: event types and keys that are added to a
/// keyboard or a mouse leave it one.
pub proof fn law_recognition_is_monotone(
    types: Set<u16>,
    keys: Option<Set<u16>>,
    more_types: Set<u16>,
    more_keys: Set<u16>,
)
    requires
        keyboard_or_mouse(types, keys),
        types.subset_of(more_types),
        keys matches Some(codes) ==> codes.subset_of(more_keys),
    ensures
        keyboard_or_mouse(more_types, Some(more_keys)),
{
    if !types.contains(2) {
        let codes = keys->0;
        let code = choose|code: u16|
            codes.contains(code) && #[trigger] crate::convert::telling_key(code);
        assert(more_keys.contains(code) && crate::convert::telling_key(code));
    }
}

} // verus!
