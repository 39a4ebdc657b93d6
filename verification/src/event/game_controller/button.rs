//! Controller buttons and the codes the native layer reports them under.

use vstd::prelude::*;

use crate::native::NativeCall;

verus! {

/// Code of the bottom face button.
pub const CONTROLLER_BUTTON_A: i32 = 0;

/// Code of the right face button.
pub const CONTROLLER_BUTTON_B: i32 = 1;

/// Code of the left face button.
pub const CONTROLLER_BUTTON_X: i32 = 2;

/// Code of the top face button.
pub const CONTROLLER_BUTTON_Y: i32 = 3;

/// Code of the back button.
pub const CONTROLLER_BUTTON_BACK: i32 = 4;

/// Code of the guide button.
pub const CONTROLLER_BUTTON_GUIDE: i32 = 5;

/// Code of the start button.
pub const CONTROLLER_BUTTON_START: i32 = 6;

/// Code of the left stick, pressed.
pub const CONTROLLER_BUTTON_LEFTSTICK: i32 = 7;

/// Code of the right stick, pressed.
pub const CONTROLLER_BUTTON_RIGHTSTICK: i32 = 8;

/// Code of the left shoulder button.
pub const CONTROLLER_BUTTON_LEFTSHOULDER: i32 = 9;

/// Code of the right shoulder button.
pub const CONTROLLER_BUTTON_RIGHTSHOULDER: i32 = 10;

/// Code of the upper arm of the directional pad.
pub const CONTROLLER_BUTTON_DPAD_UP: i32 = 11;

/// Code of the lower arm of the directional pad.
pub const CONTROLLER_BUTTON_DPAD_DOWN: i32 = 12;

/// Code of the left arm of the directional pad.
pub const CONTROLLER_BUTTON_DPAD_LEFT: i32 = 13;

/// Code of the right arm of the directional pad.
pub const CONTROLLER_BUTTON_DPAD_RIGHT: i32 = 14;

/// One of the four directions of a button cluster.
#[derive(Debug, Clone, Copy, PartialEq, Eq, Structural)]
pub enum FourButton {
    Up,
    Right,
    Down,
    Left,
}

/// A button of a game controller.
///
/// The directional pad is the cluster on the left side, the face buttons are
/// the cluster on the right side. Both are oriented alike: the top face
/// button is `RightFour(Up)` as the pad's upper arm is `LeftFour(Up)`.
#[derive(Debug, Clone, Copy, PartialEq, Eq, Structural)]
pub enum Button {
    LeftFour(FourButton),
    RightFour(FourButton),
    Back,
    Guide,
    Start,
    LeftStick,
    RightStick,
    LeftShoulder,
    RightShoulder,
}

impl Button {
    /// The native code of this button.
    pub open spec fn code(self) -> i32 {
        match self {
            Button::LeftFour(FourButton::Up) => CONTROLLER_BUTTON_DPAD_UP,
            Button::LeftFour(FourButton::Right) => CONTROLLER_BUTTON_DPAD_RIGHT,
            Button::LeftFour(FourButton::Down) => CONTROLLER_BUTTON_DPAD_DOWN,
            Button::LeftFour(FourButton::Left) => CONTROLLER_BUTTON_DPAD_LEFT,
            Button::RightFour(FourButton::Up) => CONTROLLER_BUTTON_Y,
            Button::RightFour(FourButton::Right) => CONTROLLER_BUTTON_B,
            Button::RightFour(FourButton::Down) => CONTROLLER_BUTTON_A,
            Button::RightFour(FourButton::Left) => CONTROLLER_BUTTON_X,
            Button::Back => CONTROLLER_BUTTON_BACK,
            Button::Guide => CONTROLLER_BUTTON_GUIDE,
            Button::Start => CONTROLLER_BUTTON_START,
            Button::LeftStick => CONTROLLER_BUTTON_LEFTSTICK,
            Button::RightStick => CONTROLLER_BUTTON_RIGHTSTICK,
            Button::LeftShoulder => CONTROLLER_BUTTON_LEFTSHOULDER,
            Button::RightShoulder => CONTROLLER_BUTTON_RIGHTSHOULDER,
        }
    }

    /// Whether this is a button of one of the two four-direction clusters.
    pub open spec fn is_four_direction(self) -> bool {
        self is LeftFour || self is RightFour
    }

    /// Whether `raw` is the code of a button.
    pub open spec fn recognized(raw: i32) -> bool {
        exists|b: Button| #[trigger] b.code() == raw
    }

    /// The button that `raw` stands for: the button whose code it is, and
    /// nothing for any other value.
    pub open spec fn decode(raw: i32) -> Option<Button> {
        if Button::recognized(raw) {
            Some(choose|b: Button| #[trigger] b.code() == raw)
        } else {
            None
        }
    }

    /// Decodes a native button code: a recognized code gives the button
    /// whose code it is, any other value gives nothing.
    pub fn from_raw(raw: i32) -> (button: Option<Button>)
        ensures
            button == Button::decode(raw),
            button is Some <==> Button::recognized(raw),
            button matches Some(found) ==> found.code() == raw,
    {
        let found = match raw {
            CONTROLLER_BUTTON_A => Some(Button::RightFour(FourButton::Down)),
            CONTROLLER_BUTTON_B => Some(Button::RightFour(FourButton::Right)),
            CONTROLLER_BUTTON_X => Some(Button::RightFour(FourButton::Left)),
            CONTROLLER_BUTTON_Y => Some(Button::RightFour(FourButton::Up)),
            CONTROLLER_BUTTON_BACK => Some(Button::Back),
            CONTROLLER_BUTTON_GUIDE => Some(Button::Guide),
            CONTROLLER_BUTTON_START => Some(Button::Start),
            CONTROLLER_BUTTON_LEFTSTICK => Some(Button::LeftStick),
            CONTROLLER_BUTTON_RIGHTSTICK => Some(Button::RightStick),
            CONTROLLER_BUTTON_LEFTSHOULDER => Some(Button::LeftShoulder),
            CONTROLLER_BUTTON_RIGHTSHOULDER => Some(Button::RightShoulder),
            CONTROLLER_BUTTON_DPAD_DOWN => Some(Button::LeftFour(FourButton::Down)),
            CONTROLLER_BUTTON_DPAD_RIGHT => Some(Button::LeftFour(FourButton::Right)),
            CONTROLLER_BUTTON_DPAD_LEFT => Some(Button::LeftFour(FourButton::Left)),
            CONTROLLER_BUTTON_DPAD_UP => Some(Button::LeftFour(FourButton::Up)),
            _ => None,
        };
        proof {
            match found {
                Some(b) => {
                    Button::decode_inverts_code(b);
                },
                None => {
                    assert forall|b: Button| #[trigger] b.code() != raw by {
                        Button::codes_are_in_range(b);
                    }
                },
            }
        }
        found
    }

    /// Encodes this button as its native code, which decodes to this
    /// button again.
    pub fn as_raw(&self) -> (raw: i32)
        ensures
            raw == self.code(),
            Button::decode(raw) == Some(*self),
    {
        proof {
            Button::decode_inverts_code(*self);
        }
        match self {
            Button::LeftFour(FourButton::Up) => CONTROLLER_BUTTON_DPAD_UP,
            Button::LeftFour(FourButton::Right) => CONTROLLER_BUTTON_DPAD_RIGHT,
            Button::LeftFour(FourButton::Down) => CONTROLLER_BUTTON_DPAD_DOWN,
            Button::LeftFour(FourButton::Left) => CONTROLLER_BUTTON_DPAD_LEFT,
            Button::RightFour(FourButton::Up) => CONTROLLER_BUTTON_Y,
            Button::RightFour(FourButton::Right) => CONTROLLER_BUTTON_B,
            Button::RightFour(FourButton::Down) => CONTROLLER_BUTTON_A,
            Button::RightFour(FourButton::Left) => CONTROLLER_BUTTON_X,
            Button::Back => CONTROLLER_BUTTON_BACK,
            Button::Guide => CONTROLLER_BUTTON_GUIDE,
            Button::Start => CONTROLLER_BUTTON_START,
            Button::LeftStick => CONTROLLER_BUTTON_LEFTSTICK,
            Button::RightStick => CONTROLLER_BUTTON_RIGHTSTICK,
            Button::LeftShoulder => CONTROLLER_BUTTON_LEFTSHOULDER,
            Button::RightShoulder => CONTROLLER_BUTTON_RIGHTSHOULDER,
        }
    }

    /// The call that asks the native layer for the name of this button. The
    /// answer is the name.
    pub fn name_call(&self) -> (call: NativeCall)
        ensures
            call == (NativeCall::GameControllerGetStringForButton { button: self.code() }),
    {
        NativeCall::GameControllerGetStringForButton { button: self.as_raw() }
    }

    /// Every code lies between the first face button and the last arm of
    /// the directional pad.
    pub proof fn codes_are_in_range(b: Button)
        ensures
            CONTROLLER_BUTTON_A <= b.code() <= CONTROLLER_BUTTON_DPAD_RIGHT,
    {
    }

    /// No two buttons share a code.
    pub proof fn codes_are_distinct(a: Button, b: Button)
        requires
            a.code() == b.code(),
        ensures
            a == b,
    {
    }

    /// Decoding the code of a button gives that button back.
    pub proof fn decode_inverts_code(b: Button)
        ensures
            Button::decode(b.code()) == Some(b),
    {
        let raw = b.code();
        let chosen = choose|c: Button| #[trigger] c.code() == raw;
        Button::codes_are_distinct(chosen, b);
    }

    /// Decoding the code of a four-direction button gives that button back.
    pub proof fn decode_inverts_code_of_directions(b: Button)
        requires
            b.is_four_direction(),
        ensures
            Button::decode(b.code()) == Some(b),
    {
        Button::decode_inverts_code(b);
    }

    /// A recognized code decodes to a button, and encoding that button
    /// gives the code back.
    pub proof fn code_inverts_decode(raw: i32)
        requires
            Button::recognized(raw),
        ensures
            Button::decode(raw) is Some,
            Button::decode(raw).unwrap().code() == raw,
    {
    }

    /// The recognized codes are those from the first face button to the
    /// last arm of the directional pad, one for each button.
    pub proof fn recognized_codes(raw: i32)
        ensures
            Button::recognized(raw) <==> CONTROLLER_BUTTON_A <= raw
                <= CONTROLLER_BUTTON_DPAD_RIGHT,
    {
        if Button::recognized(raw) {
            let b = choose|b: Button| #[trigger] b.code() == raw;
            Button::codes_are_in_range(b);
        }
        if CONTROLLER_BUTTON_A <= raw <= CONTROLLER_BUTTON_DPAD_RIGHT {
            let b = Button::witness_of(raw);
            assert(b.code() == raw);
        }
    }

    /// The button with the given code, for a recognized code.
    spec fn witness_of(raw: i32) -> Button {
        if raw == CONTROLLER_BUTTON_A {
            Button::RightFour(FourButton::Down)
        } else if raw == CONTROLLER_BUTTON_B {
            Button::RightFour(FourButton::Right)
        } else if raw == CONTROLLER_BUTTON_X {
            Button::RightFour(FourButton::Left)
        } else if raw == CONTROLLER_BUTTON_Y {
            Button::RightFour(FourButton::Up)
        } else if raw == CONTROLLER_BUTTON_BACK {
            Button::Back
        } else if raw == CONTROLLER_BUTTON_GUIDE {
            Button::Guide
        } else if raw == CONTROLLER_BUTTON_START {
            Button::Start
        } else if raw == CONTROLLER_BUTTON_LEFTSTICK {
            Button::LeftStick
        } else if raw == CONTROLLER_BUTTON_RIGHTSTICK {
            Button::RightStick
        } else if raw == CONTROLLER_BUTTON_LEFTSHOULDER {
            Button::LeftShoulder
        } else if raw == CONTROLLER_BUTTON_RIGHTSHOULDER {
            Button::RightShoulder
        } else if raw == CONTROLLER_BUTTON_DPAD_UP {
            Button::LeftFour(FourButton::Up)
        } else if raw == CONTROLLER_BUTTON_DPAD_DOWN {
            Button::LeftFour(FourButton::Down)
        } else if raw == CONTROLLER_BUTTON_DPAD_LEFT {
            Button::LeftFour(FourButton::Left)
        } else {
            Button::LeftFour(FourButton::Right)
        }
    }
}

} // verus!
