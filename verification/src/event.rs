//! Platform-independent event model.
//!
//! Pointer and keyboard samples are carried as plain numeric codes; nothing
//! platform-specific leaks through. Coordinates and deltas are integer counts
//! of screen units.

use vstd::prelude::*;

verus! {

/// Linux evdev code for the left mouse button.
pub const BTN_LEFT: u32 = 0x110;
/// Linux evdev code for the right mouse button.
pub const BTN_RIGHT: u32 = 0x111;
/// Linux evdev code for the middle mouse button.
pub const BTN_MIDDLE: u32 = 0x112;
/// Linux evdev code for the "back" mouse button.
pub const BTN_BACK: u32 = 0x113;
/// Linux evdev code for the "forward" mouse button.
pub const BTN_FORWARD: u32 = 0x114;

/// A pointer sample: relative motion, a button change, or scroll-wheel travel.
#[derive(Debug, PartialEq, Clone, Copy)]
pub enum PointerEvent {
    Motion { time: u32, dx: i64, dy: i64 },
    Button { time: u32, button: u32, state: u32 },
    Axis { time: u32, axis: u8, value: i64 },
    AxisDiscrete120 { axis: u8, value: i32 },
}

/// A keyboard sample: a key press/release or a modifier-state change.
#[derive(Debug, PartialEq, Clone, Copy)]
pub enum KeyboardEvent {
    Key { time: u32, key: u32, state: u8 },
    Modifiers { depressed: u32, latched: u32, locked: u32, group: u32 },
}

/// Any canonical input event.
#[derive(Debug, PartialEq, Clone, Copy)]
pub enum Event {
    Pointer(PointerEvent),
    Keyboard(KeyboardEvent),
}

/// What the capture side hands downstream: the one-time marker that a pointer
/// crossed into an edge, or a captured input event.
#[derive(Debug, PartialEq, Clone, Copy)]
pub enum CaptureEvent {
    Begin,
    Input(Event),
}

/// One of the four screen edges that can own a logical remote client.
#[derive(Debug, Clone, Copy, Eq, Hash, PartialEq, Structural)]
pub enum Position {
    Left,
    Right,
    Top,
    Bottom,
}

impl Position {
    /// The edge facing this one: Left and Right swap, Top and Bottom swap.
    pub open spec fn opposite_spec(self) -> Position {
        match self {
            Position::Left => Position::Right,
            Position::Right => Position::Left,
            Position::Top => Position::Bottom,
            Position::Bottom => Position::Top,
        }
    }

    pub fn opposite(&self) -> (r: Position)
        ensures
            r == self.opposite_spec(),
    {
        match self {
            Position::Left => Position::Right,
            Position::Right => Position::Left,
            Position::Top => Position::Bottom,
            Position::Bottom => Position::Top,
        }
    }
}

} // verus!
