//! Rectangles as the native layer lays them out.

use vstd::prelude::*;

use crate::geo::rect::Rect;
use crate::geo::{Point, Size};

verus! {

/// A rectangle of the native layer: a corner and an extent, all four
/// signed.
#[derive(Debug, Clone, Copy, PartialEq, Eq, Structural)]
pub struct RawRect {
    pub x: i32,
    pub y: i32,
    pub w: i32,
    pub h: i32,
}

impl vstd::std_specs::convert::FromSpecImpl<RawRect> for Rect {
    open spec fn obeys_from_spec() -> bool {
        true
    }

    /// The corner is taken over. Each extent keeps its 32 bits and is read
    /// as unsigned, so an extent that is not negative keeps its value.
    open spec fn from_spec(raw: RawRect) -> Rect {
        Rect {
            up_left: Point { x: raw.x, y: raw.y },
            size: Size { width: raw.w as u32, height: raw.h as u32 },
        }
    }
}

impl From<RawRect> for Rect {
    fn from(raw: RawRect) -> (rect: Rect) {
        Rect {
            up_left: Point { x: raw.x, y: raw.y },
            size: Size {
                width: #[verifier::truncate]
                (raw.w as u32),
                height: #[verifier::truncate]
                (raw.h as u32),
            },
        }
    }
}

impl vstd::std_specs::convert::FromSpecImpl<Rect> for RawRect {
    open spec fn obeys_from_spec() -> bool {
        true
    }

    /// The corner is taken over. Each extent keeps its 32 bits and is read
    /// as signed, so an extent of at most `i32::MAX` keeps its value.
    open spec fn from_spec(rect: Rect) -> RawRect {
        RawRect {
            x: rect.up_left.x,
            y: rect.up_left.y,
            w: rect.size.width as i32,
            h: rect.size.height as i32,
        }
    }
}

impl From<Rect> for RawRect {
    fn from(rect: Rect) -> (raw: RawRect) {
        RawRect {
            x: rect.up_left.x,
            y: rect.up_left.y,
            w: #[verifier::truncate]
            (rect.size.width as i32),
            h: #[verifier::truncate]
            (rect.size.height as i32),
        }
    }
}

impl RawRect {
    /// The native form of `rect`.
    pub open spec fn of(rect: Rect) -> RawRect {
        <RawRect as vstd::std_specs::convert::FromSpec<Rect>>::from_spec(rect)
    }

    /// The rectangle that the native form stands for.
    pub open spec fn rect(self) -> Rect {
        <Rect as vstd::std_specs::convert::FromSpec<RawRect>>::from_spec(self)
    }

    /// A rectangle comes back unchanged from its native form.
    pub proof fn rect_survives_native_form(rect: Rect)
        ensures
            RawRect::of(rect).rect() == rect,
    {
        let width = rect.size.width;
        let height = rect.size.height;
        assert((width as i32) as u32 == width) by (bit_vector);
        assert((height as i32) as u32 == height) by (bit_vector);
    }

    /// A native rectangle comes back unchanged from the rectangle it stands
    /// for.
    pub proof fn native_form_survives_rect(raw: RawRect)
        ensures
            RawRect::of(raw.rect()) == raw,
    {
        let w = raw.w;
        let h = raw.h;
        assert((w as u32) as i32 == w) by (bit_vector);
        assert((h as u32) as i32 == h) by (bit_vector);
    }
}

} // verus!
