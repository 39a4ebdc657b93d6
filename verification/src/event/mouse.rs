//! Mouse events and the native records they are read from.

use vstd::prelude::*;

use crate::geo::Point;

verus! {

/// The state code of a button that is held down.
pub const PRESSED: u8 = 1;

/// The direction code of a wheel whose scroll values are flipped.
pub const MOUSEWHEEL_FLIPPED: u32 = 1;

/// A button of a mouse.
#[derive(Debug, Clone, Copy, PartialEq, Eq, Structural)]
pub enum MouseButton {
    Left,
    Middle,
    Right,
    X1,
    X2,
}

impl MouseButton {
    /// The button that the one-byte code stands for: the codes one to five
    /// stand for the five buttons in their order, every other code for
    /// none.
    pub open spec fn decode(bits: u8) -> Option<MouseButton> {
        if bits == 1 {
            Some(MouseButton::Left)
        } else if bits == 2 {
            Some(MouseButton::Middle)
        } else if bits == 3 {
            Some(MouseButton::Right)
        } else if bits == 4 {
            Some(MouseButton::X1)
        } else if bits == 5 {
            Some(MouseButton::X2)
        } else {
            None
        }
    }

    /// Decodes a one-byte button code.
    pub fn from_bits(bits: u8) -> (button: Option<MouseButton>)
        ensures
            button == MouseButton::decode(bits),
            button is None <==> bits == 0 || bits >= 6,
    {
        match bits {
            1 => Some(MouseButton::Left),
            2 => Some(MouseButton::Middle),
            3 => Some(MouseButton::Right),
            4 => Some(MouseButton::X1),
            5 => Some(MouseButton::X2),
            _ => None,
        }
    }
}

/// The lowest byte of a button state word.
pub open spec fn low_byte(state: u32) -> u8 {
    (state % 256) as u8
}

/// The native record of a mouse movement.
#[derive(Debug, Clone, Copy, PartialEq, Eq, Structural)]
pub struct RawMouseMotion {
    pub timestamp: u32,
    pub window_id: u32,
    pub which: u32,
    pub state: u32,
    pub x: i32,
    pub y: i32,
    pub xrel: i32,
    pub yrel: i32,
}

/// The native record of a mouse button going down or up.
#[derive(Debug, Clone, Copy, PartialEq, Eq, Structural)]
pub struct RawMouseButton {
    pub timestamp: u32,
    pub window_id: u32,
    pub which: u32,
    pub button: u8,
    pub state: u8,
    pub clicks: u8,
    pub x: i32,
    pub y: i32,
}

/// The native record of a mouse wheel turn.
#[derive(Debug, Clone, Copy, PartialEq, Eq, Structural)]
pub struct RawMouseWheel {
    pub timestamp: u32,
    pub window_id: u32,
    pub which: u32,
    pub x: i32,
    pub y: i32,
    pub direction: u32,
}

/// An event of a mouse.
#[derive(Debug, Clone, Copy, PartialEq, Eq, Structural)]
pub enum MouseEvent {
    Motion(MouseMotionEvent),
    Button(MouseButtonEvent),
    Wheel(MouseWheelEvent),
}

/// A mouse was moved.
#[derive(Debug, Clone, Copy, PartialEq, Eq, Structural)]
pub struct MouseMotionEvent {
    pub timestamp: u32,
    pub window_id: u32,
    pub mouse_id: u32,
    pub button: Option<MouseButton>,
    pub pos: Point,
    pub move_amount: Point,
}

/// A mouse button went down or up.
#[derive(Debug, Clone, Copy, PartialEq, Eq, Structural)]
pub struct MouseButtonEvent {
    pub timestamp: u32,
    pub window_id: u32,
    pub mouse_id: u32,
    pub button: Option<MouseButton>,
    pub is_pressed: bool,
    pub clicks: u8,
    pub pos: Point,
}

/// A mouse wheel was turned.
#[derive(Debug, Clone, Copy, PartialEq, Eq, Structural)]
pub struct MouseWheelEvent {
    pub timestamp: u32,
    pub window_id: u32,
    pub mouse_id: u32,
    pub scroll_amount: Point,
    pub is_flipped: bool,
}

impl vstd::std_specs::convert::FromSpecImpl<RawMouseMotion> for MouseMotionEvent {
    open spec fn obeys_from_spec() -> bool {
        true
    }

    /// The time, the window and the device are taken over; the button is
    /// decoded from the lowest byte of the state word.
    open spec fn from_spec(raw: RawMouseMotion) -> MouseMotionEvent {
        MouseMotionEvent {
            timestamp: raw.timestamp,
            window_id: raw.window_id,
            mouse_id: raw.which,
            button: MouseButton::decode(low_byte(raw.state)),
            pos: Point { x: raw.x, y: raw.y },
            move_amount: Point { x: raw.xrel, y: raw.yrel },
        }
    }
}

impl From<RawMouseMotion> for MouseMotionEvent {
    fn from(raw: RawMouseMotion) -> (event: MouseMotionEvent) {
        MouseMotionEvent {
            timestamp: raw.timestamp,
            window_id: raw.window_id,
            mouse_id: raw.which,
            button: MouseButton::from_bits((raw.state % 256) as u8),
            pos: Point { x: raw.x, y: raw.y },
            move_amount: Point { x: raw.xrel, y: raw.yrel },
        }
    }
}

impl vstd::std_specs::convert::FromSpecImpl<RawMouseButton> for MouseButtonEvent {
    open spec fn obeys_from_spec() -> bool {
        true
    }

    /// The time, the window, the device and the click count are taken
    /// over; the button is decoded from its code.
    open spec fn from_spec(raw: RawMouseButton) -> MouseButtonEvent {
        MouseButtonEvent {
            timestamp: raw.timestamp,
            window_id: raw.window_id,
            mouse_id: raw.which,
            button: MouseButton::decode(raw.button),
            is_pressed: raw.state == PRESSED,
            clicks: raw.clicks,
            pos: Point { x: raw.x, y: raw.y },
        }
    }
}

impl From<RawMouseButton> for MouseButtonEvent {
    fn from(raw: RawMouseButton) -> (event: MouseButtonEvent) {
        MouseButtonEvent {
            timestamp: raw.timestamp,
            window_id: raw.window_id,
            mouse_id: raw.which,
            button: MouseButton::from_bits(raw.button),
            is_pressed: raw.state == PRESSED,
            clicks: raw.clicks,
            pos: Point { x: raw.x, y: raw.y },
        }
    }
}

impl vstd::std_specs::convert::FromSpecImpl<RawMouseWheel> for MouseWheelEvent {
    open spec fn obeys_from_spec() -> bool {
        true
    }

    /// The time, the window and the device are taken over, with the scroll
    /// in both directions.
    open spec fn from_spec(raw: RawMouseWheel) -> MouseWheelEvent {
        MouseWheelEvent {
            timestamp: raw.timestamp,
            window_id: raw.window_id,
            mouse_id: raw.which,
            scroll_amount: Point { x: raw.x, y: raw.y },
            is_flipped: raw.direction == MOUSEWHEEL_FLIPPED,
        }
    }
}

impl From<RawMouseWheel> for MouseWheelEvent {
    fn from(raw: RawMouseWheel) -> (event: MouseWheelEvent) {
        MouseWheelEvent {
            timestamp: raw.timestamp,
            window_id: raw.window_id,
            mouse_id: raw.which,
            scroll_amount: Point { x: raw.x, y: raw.y },
            is_flipped: raw.direction == MOUSEWHEEL_FLIPPED,
        }
    }
}

} // verus!
