//! What the library takes from the `evdev` crate: how events are told apart, and
//! the sets of codes that a device supports or is created with.
use crate::codes::{EV_KEY, EV_REL};
use vstd::prelude::*;

verus! {

/// The type of an event, as `evdev::EventType` holds it. Nothing is claimed of it.
#[verifier::external_type_specification]
#[verifier::external_body]
pub struct ExEventType(evdev::EventType);

/// A key or a button, as `evdev::Key` holds it. Nothing is claimed of it.
#[verifier::external_type_specification]
#[verifier::external_body]
pub struct ExKey(evdev::Key);

/// A relative axis, as `evdev::RelativeAxisType` holds it. Nothing is claimed of it.
#[verifier::external_type_specification]
#[verifier::external_body]
pub struct ExRelativeAxisType(evdev::RelativeAxisType);

/// A set of event types, keys or axes, as an `evdev::AttributeSetRef` lends it out.
/// What it holds is named by `event_types`, `key_codes` and `axis_codes`.
#[verifier::external_type_specification]
#[verifier::external_body]
#[verifier::reject_recursive_types(T)]
pub struct ExAttributeSetRef<T>(evdev::AttributeSetRef<T>);

/// What an event is about.
#[derive(Debug, Clone, Copy, PartialEq, Eq, Structural)]
pub enum EventKind {
    /// A key or a button, by its code.
    Key(u16),
    /// A relative axis, by its code.
    RelAxis(u16),
    /// Anything else.
    Other,
}

/// What an event of the given type and code is about.
pub open spec fn kind_of(event_type: u16, code: u16) -> EventKind {
    if event_type == EV_KEY {
        EventKind::Key(code)
    } else if event_type == EV_REL {
        EventKind::RelAxis(code)
    } else {
        EventKind::Other
    }
}

/// Calls `evdev::InputEvent::kind`. An event of the key type is about the key of
/// its code, one of the relative type about the axis of its code, and no other
/// event is about either.
#[verifier::external_body]
pub(crate) fn event_kind(event_type: u16, code: u16) -> (r: EventKind)
    ensures
        r == kind_of(event_type, code),
{
    match evdev::InputEvent::new(evdev::EventType(event_type), code, 0).kind() {
        evdev::InputEventKind::Key(key) => EventKind::Key(key.code()),
        evdev::InputEventKind::RelAxis(axis) => EventKind::RelAxis(axis.0),
        _ => EventKind::Other,
    }
}

/// The event types in a set.
pub uninterp spec fn event_types(set: &evdev::AttributeSetRef<evdev::EventType>) -> Set<u16>;

/// The key codes in a set.
pub uninterp spec fn key_codes(set: &evdev::AttributeSetRef<evdev::Key>) -> Set<u16>;

/// The codes of relative axes in a set.
pub uninterp spec fn axis_codes(set: &evdev::AttributeSetRef<evdev::RelativeAxisType>) -> Set<u16>;

/// Calls `evdev::AttributeSetRef::contains` on a set of event types: whether the
/// type is in the set.
#[verifier::external_body]
pub(crate) fn has_event_type(
    set: &evdev::AttributeSetRef<evdev::EventType>,
    event_type: u16,
) -> (r: bool)
    ensures
        r == event_types(set).contains(event_type),
{
    set.contains(evdev::EventType(event_type))
}

/// Calls `evdev::AttributeSetRef::contains` on a set of keys: whether the key of
/// that code is in the set.
#[verifier::external_body]
pub(crate) fn has_key(set: &evdev::AttributeSetRef<evdev::Key>, code: u16) -> (r: bool)
    ensures
        r == key_codes(set).contains(code),
{
    set.contains(evdev::Key::new(code))
}

/// One more than the largest key code that a set of keys can hold.
pub const KEY_COUNT: u16 = 0x300;

/// One more than the largest code that a set of relative axes can hold.
pub const AXIS_COUNT: u16 = 0x10;

/// A set of keys that a device is to be created with.
///
/// The set is an `evdev::AttributeSet`, whose parameter is bounded by a trait that
/// `evdev` does not export, so the type cannot be declared by itself.
#[verifier::external_body]
pub struct KeySet {
    set: evdev::AttributeSet<evdev::Key>,
}

/// A set of relative axes that a device is to be created with.
#[verifier::external_body]
pub struct AxisSet {
    set: evdev::AttributeSet<evdev::RelativeAxisType>,
}

/// The key codes in a set of keys.
pub uninterp spec fn key_set_codes(set: KeySet) -> Set<u16>;

/// The codes in a set of relative axes.
pub uninterp spec fn axis_set_codes(set: AxisSet) -> Set<u16>;

impl KeySet {
    /// Calls `evdev::AttributeSet::new`: the set is empty.
    #[verifier::external_body]
    pub(crate) fn new() -> (r: Self)
        ensures
            key_set_codes(r) == Set::<u16>::empty(),
    {
        KeySet { set: evdev::AttributeSet::new() }
    }

    /// Calls `evdev::AttributeSetRef::insert`: the key of that code joins the set.
    /// The set has room for the codes below `KEY_COUNT`.
    #[verifier::external_body]
    pub(crate) fn insert(&mut self, code: u16)
        requires
            code < KEY_COUNT,
        ensures
            key_set_codes(*final(self)) == key_set_codes(*old(self)).insert(code),
    {
        self.set.insert(evdev::Key::new(code))
    }

    /// Calls `evdev::AttributeSet::deref`: the set as `evdev` hands it to a device
    /// builder, with the same codes in it.
    #[verifier::external_body]
    pub(crate) fn attributes(&self) -> (r: &evdev::AttributeSetRef<evdev::Key>)
        ensures
            key_codes(r) == key_set_codes(*self),
    {
        &self.set
    }
}

impl AxisSet {
    /// Calls `evdev::AttributeSet::new`: the set is empty.
    #[verifier::external_body]
    pub(crate) fn new() -> (r: Self)
        ensures
            axis_set_codes(r) == Set::<u16>::empty(),
    {
        AxisSet { set: evdev::AttributeSet::new() }
    }

    /// Calls `evdev::AttributeSetRef::insert`: the axis of that code joins the set.
    /// The set has room for the codes below `AXIS_COUNT`.
    #[verifier::external_body]
    pub(crate) fn insert(&mut self, code: u16)
        requires
            code < AXIS_COUNT,
        ensures
            axis_set_codes(*final(self)) == axis_set_codes(*old(self)).insert(code),
    {
        self.set.insert(evdev::RelativeAxisType(code))
    }

    /// Calls `evdev::AttributeSet::deref`: the set as `evdev` hands it to a device
    /// builder, with the same codes in it.
    #[verifier::external_body]
    pub(crate) fn attributes(&self) -> (r: &evdev::AttributeSetRef<evdev::RelativeAxisType>)
        ensures
            axis_codes(r) == axis_set_codes(*self),
    {
        &self.set
    }
}

} // verus!
