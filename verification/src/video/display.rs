//! Displays.

use vstd::prelude::*;

use crate::video::Video;

verus! {

/// A display, known by its index.
#[derive(Debug)]
pub struct Display<'video> {
    index: i32,
    video: &'video Video<'video>,
}

impl<'video> Display<'video> {
    #[verifier::type_invariant]
    spec fn index_is_natural(self) -> bool {
        self.index >= 0
    }

    /// The index of the display.
    pub closed spec fn index_of(self) -> i32 {
        self.index
    }

    /// The video subsystem that the display belongs to.
    pub closed spec fn video(self) -> Video<'video> {
        *self.video
    }

    /// The display with the given index, which is not negative.
    pub(crate) fn new(index: i32, video: &'video Video<'video>) -> (display: Display<'video>)
        requires
            index >= 0,
        ensures
            display.index_of() == index,
            display.video() == *video,
    {
        Display { index, video }
    }

    /// The index of the display, which is never negative.
    pub fn index(&self) -> (index: i32)
        ensures
            index == self.index_of(),
            index >= 0,
    {
        proof {
            use_type_invariant(self);
        }
        self.index
    }
}

} // verus!
