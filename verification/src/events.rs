//! Input events, clipboard contents and control messages shared between machines.
//!
//! Amounts of movement are whole numbers here: pixels, wheel notches and screen
//! coordinates, as the kernel's input interface reports and takes them.
use vstd::prelude::*;

verus! {

/// Input events that can be shared between machines.
#[derive(Debug, Clone, Copy, PartialEq, Eq, Structural)]
pub enum InputEvent {
    /// Keyboard key press or release.
    Keyboard(KeyboardEvent),
    /// Mouse movement (relative or absolute).
    MouseMove(MouseMoveEvent),
    /// Mouse button press or release.
    MouseButton(MouseButtonEvent),
    /// Mouse wheel scroll.
    MouseWheel(MouseWheelEvent),
}

/// Keyboard event.
#[derive(Debug, Clone, Copy, PartialEq, Eq, Structural)]
pub struct KeyboardEvent {
    /// Timestamp in milliseconds.
    pub time: u64,
    /// Key code (Linux evdev code).
    pub key: u32,
    /// True if pressed, false if released.
    pub pressed: bool,
    /// Raw evdev value: 0 for release, 1 for press, 2 for repeat.
    pub raw_value: i32,
    /// Modifier state.
    pub modifiers: ModifierState,
}

/// Modifier key state.
#[derive(Debug, Clone, Copy, PartialEq, Eq, Structural)]
pub struct ModifierState {
    pub shift: bool,
    pub ctrl: bool,
    pub alt: bool,
    pub meta: bool,
}

/// No modifier is held.
pub open spec fn no_modifiers() -> ModifierState {
    ModifierState { shift: false, ctrl: false, alt: false, meta: false }
}

impl Default for ModifierState {
    fn default() -> (r: Self)
        ensures
            r == no_modifiers(),
    {
        ModifierState { shift: false, ctrl: false, alt: false, meta: false }
    }
}

/// Mouse movement event.
#[derive(Debug, Clone, Copy, PartialEq, Eq, Structural)]
pub struct MouseMoveEvent {
    /// Timestamp in milliseconds.
    pub time: u64,
    /// Movement type.
    pub movement: MouseMovement,
}

/// Mouse movement types.
#[derive(Debug, Clone, Copy, PartialEq, Eq, Structural)]
pub enum MouseMovement {
    /// Relative movement, in pixels.
    Relative { dx: i32, dy: i32 },
    /// Absolute position, in screen coordinates.
    Absolute { x: i32, y: i32 },
}

/// Mouse button event.
#[derive(Debug, Clone, Copy, PartialEq, Eq, Structural)]
pub struct MouseButtonEvent {
    /// Timestamp in milliseconds.
    pub time: u64,
    /// Button code (Linux BTN_* codes).
    pub button: u32,
    /// True if pressed, false if released.
    pub pressed: bool,
}

/// How far a wheel turned.
///
/// A turn of less than a notch has moved by no whole notch.
#[derive(Debug, Clone, Copy, PartialEq, Eq, Structural)]
pub struct ScrollAmount {
    /// Whether the wheel turned at all.
    pub moved: bool,
    /// The whole notches, towards zero.
    pub notches: i32,
}

impl ScrollAmount {
    /// A turn by a whole number of notches.
    pub open spec fn of(notches: i32) -> ScrollAmount {
        ScrollAmount { moved: notches != 0, notches }
    }

    /// A turn by a whole number of notches.
    pub fn from_notches(notches: i32) -> (r: Self)
        ensures
            r == ScrollAmount::of(notches),
    {
        ScrollAmount { moved: notches != 0, notches }
    }
}

/// Mouse wheel event.
#[derive(Debug, Clone, Copy, PartialEq, Eq, Structural)]
pub struct MouseWheelEvent {
    /// Timestamp in milliseconds.
    pub time: u64,
    /// Horizontal scroll amount.
    pub dx: ScrollAmount,
    /// Vertical scroll amount.
    pub dy: ScrollAmount,
}

/// Clipboard data.
#[derive(Debug, Clone, PartialEq, Eq)]
pub struct ClipboardData {
    /// MIME type of the data.
    pub mime_type: String,
    /// The actual clipboard data.
    pub data: Vec<u8>,
}

/// Control messages.
#[derive(Debug, Clone, PartialEq, Eq)]
pub enum ControlMessage {
    /// Request to switch focus to this machine.
    RequestFocus,
    /// Acknowledge focus switch.
    FocusAcquired,
    /// Release focus.
    ReleaseFocus,
    /// Disconnect gracefully.
    Disconnect,
    /// Error message.
    Error(String),
}

} // verus!
