//! The events that travel from the macOS client to the Windows server.
//!
//! Coordinates, deltas and zoom factors are IEEE 754 binary64 numbers on the
//! wire. The library carries each of them as its bit pattern (`f64::to_bits`),
//! so a value passes through unchanged; arithmetic on them happens at the edges.
use vstd::prelude::*;

verus! {

/// All event types that can be sent from macOS to Windows.
#[derive(Clone, Copy, Debug, PartialEq, Eq, Structural)]
pub enum InputEvent {
    /// Keyboard key press/release
    Keyboard(KeyboardEvent),
    /// Mouse movement
    MouseMove(MouseMoveEvent),
    /// Mouse button press/release
    MouseButton(MouseButtonEvent),
    /// Mouse scroll (2-finger trackpad scroll)
    MouseScroll(MouseScrollEvent),
    /// Trackpad gesture (multi-finger swipes, etc.)
    Gesture(GestureEvent),
    /// Ping to check connection
    Ping,
    /// Pong response
    Pong,
}

/// A key going down or up.
#[derive(Clone, Copy, Debug, PartialEq, Eq, Structural)]
pub struct KeyboardEvent {
    /// Virtual key code (macOS numbering)
    pub key_code: u16,
    /// Character (if applicable)
    pub character: Option<char>,
    /// Is key pressed (true) or released (false)
    pub pressed: bool,
    /// Modifier keys state
    pub modifiers: Modifiers,
}

/// Pointer movement. Every field is the bit pattern of a binary64 number.
#[derive(Clone, Copy, Debug, PartialEq, Eq, Structural)]
pub struct MouseMoveEvent {
    /// Absolute X position (0.0 to 1.0 normalized)
    pub x: u64,
    /// Absolute Y position (0.0 to 1.0 normalized)
    pub y: u64,
    /// Relative X movement
    pub delta_x: u64,
    /// Relative Y movement
    pub delta_y: u64,
}

/// A mouse button going down or up.
#[derive(Clone, Copy, Debug, PartialEq, Eq, Structural)]
pub struct MouseButtonEvent {
    pub button: MouseButton,
    pub pressed: bool,
}

#[derive(Clone, Copy, Debug, PartialEq, Eq, Structural)]
pub enum MouseButton {
    Left,
    Right,
    Middle,
    Button4,
    Button5,
}

/// Scrolling. The deltas are bit patterns of binary64 numbers.
#[derive(Clone, Copy, Debug, PartialEq, Eq, Structural)]
pub struct MouseScrollEvent {
    /// Horizontal scroll delta (negative = left, positive = right)
    pub delta_x: u64,
    /// Vertical scroll delta (negative = down, positive = up)
    pub delta_y: u64,
    /// Is this a pixel-based scroll (trackpad) or line-based (mouse wheel)
    pub is_pixel_based: bool,
}

#[derive(Clone, Copy, Debug, PartialEq, Eq, Structural)]
pub struct GestureEvent {
    pub gesture_type: GestureType,
}

/// Trackpad gestures. A zoom factor is the bit pattern of a binary64 number.
#[derive(Clone, Copy, Debug, PartialEq, Eq, Structural)]
pub enum GestureType {
    /// 4-finger swipe left (switch desktop left on Windows)
    SwipeLeft,
    /// 4-finger swipe right (switch desktop right on Windows)
    SwipeRight,
    /// 4-finger swipe up (Task View on Windows)
    SwipeUp,
    /// 4-finger swipe down (Show Desktop on Windows)
    SwipeDown,
    /// Pinch to zoom in
    ZoomIn(u64),
    /// Pinch to zoom out
    ZoomOut(u64),
}

/// Modifier keys as macOS reports them.
#[derive(Clone, Copy, Debug, PartialEq, Eq, Structural)]
pub struct Modifiers {
    pub shift: bool,
    /// macOS Control key
    pub control: bool,
    /// macOS Option/Alt key
    pub alt: bool,
    /// macOS Command key
    pub command: bool,
}

/// Modifier keys as Windows knows them.
#[derive(Clone, Copy, Debug, PartialEq, Eq, Structural)]
pub struct WindowsModifiers {
    pub shift: bool,
    pub ctrl: bool,
    pub alt: bool,
    pub win: bool,
}

impl Modifiers {
    /// The Windows modifiers that stand for these macOS ones:
    /// Command becomes Ctrl, Option stays Alt, Control becomes Win, Shift stays Shift.
    pub open spec fn windows_view(self) -> WindowsModifiers {
        WindowsModifiers { shift: self.shift, ctrl: self.command, alt: self.alt, win: self.control }
    }

    /// Convert macOS modifiers to Windows modifiers
    /// Command -> Ctrl, Option -> Alt, Control -> Win
    pub fn to_windows(&self) -> (w: WindowsModifiers)
        ensures
            w == self.windows_view(),
            w.shift == self.shift,
            w.ctrl == self.command,
            w.alt == self.alt,
            w.win == self.control,
    {
        WindowsModifiers {
            shift: self.shift,
            ctrl: self.command,
            alt: self.alt,
            win: self.control,
        }
    }
}

/// Distinct macOS modifier states give distinct Windows modifier states: the
/// mapping loses no key.
pub proof fn lemma_to_windows_injective(a: Modifiers, b: Modifiers)
    requires
        a.windows_view() == b.windows_view(),
    ensures
        a == b,
{
}

impl Default for Modifiers {
    /// No modifier held.
    fn default() -> (m: Modifiers)
        ensures
            !m.shift && !m.control && !m.alt && !m.command,
    {
        Modifiers { shift: false, control: false, alt: false, command: false }
    }
}

impl Default for WindowsModifiers {
    /// No modifier held.
    fn default() -> (m: WindowsModifiers)
        ensures
            !m.shift && !m.ctrl && !m.alt && !m.win,
    {
        WindowsModifiers { shift: false, ctrl: false, alt: false, win: false }
    }
}

/// Message frame for the TCP protocol.
#[derive(Clone, Copy, Debug, PartialEq, Eq, Structural)]
pub struct Message {
    /// Message sequence number for ordering
    pub sequence: u64,
    /// The actual event
    pub event: InputEvent,
}

impl Message {
    pub fn new(sequence: u64, event: InputEvent) -> (m: Message)
        ensures
            m.sequence == sequence,
            m.event == event,
    {
        Message { sequence, event }
    }
}

} // verus!
