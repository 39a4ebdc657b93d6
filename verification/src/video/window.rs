//! Windows.

use vstd::prelude::*;

use crate::native::NativeCall;
use crate::video::display::Display;
use crate::video::window::state::{WindowFlag, WindowState, WINDOW_FLAGS_KNOWN};
use crate::video::Video;

pub mod state;

verus! {

/// A native window, held under the video subsystem it was found in.
#[derive(Debug)]
pub struct Window<'video> {
    window: usize,
    video: &'video Video<'video>,
}

impl<'video> Window<'video> {
    #[verifier::type_invariant]
    spec fn handle_is_not_null(self) -> bool {
        self.window != 0
    }

    /// The address of the native window.
    pub closed spec fn addr(self) -> usize {
        self.window
    }

    /// The video subsystem that the window lives under.
    pub closed spec fn video(self) -> Video<'video> {
        *self.video
    }

    /// The call that looks a window up by its id.
    pub fn from_id_call(id: u32) -> (call: NativeCall)
        ensures
            call == (NativeCall::GetWindowFromId { id }),
    {
        NativeCall::GetWindowFromId { id }
    }

    /// Takes the address that the lookup by id returned. There is no window
    /// where it is null.
    pub fn from_id(addr: usize, video: &'video Video<'video>) -> (found: Option<Window<'video>>)
        ensures
            found is None <==> addr == 0,
            found matches Some(window) ==> window.addr() == addr && window.video() == *video,
    {
        if addr == 0 {
            None
        } else {
            Some(Window { window: addr, video })
        }
    }

    /// The call that asks for the window that has grabbed the input.
    pub fn grabbed_call() -> (call: NativeCall)
        ensures
            call == NativeCall::GetGrabbedWindow,
    {
        NativeCall::GetGrabbedWindow
    }

    /// Takes the address that the question for the grabbing window
    /// returned. No window has grabbed the input where it is null.
    pub fn grabbed(addr: usize, video: &'video Video<'video>) -> (found: Option<Window<'video>>)
        ensures
            found is None <==> addr == 0,
            found matches Some(window) ==> window.addr() == addr && window.video() == *video,
    {
        if addr == 0 {
            None
        } else {
            Some(Window { window: addr, video })
        }
    }

    /// The address of the native window, to derive other handles from. It
    /// is never null.
    pub fn as_ptr(&self) -> (addr: usize)
        ensures
            addr == self.addr(),
            addr != 0,
    {
        proof {
            use_type_invariant(self);
        }
        self.window
    }

    /// The call that reads the flag bits of the window.
    pub fn state_call(&self) -> (call: NativeCall)
        ensures
            call == (NativeCall::GetWindowFlags { window: self.addr() }),
    {
        NativeCall::GetWindowFlags { window: self.window }
    }

    /// Takes the flag bits that the native layer returned, and keeps the
    /// named flags among them.
    pub fn state(&self, flag_bits: u32) -> (state: WindowState)
        ensures
            state.bits_of() == flag_bits & WINDOW_FLAGS_KNOWN,
            forall|flag: WindowFlag| #[trigger]
                state.has(flag) <==> flag_bits & flag.mask() == flag.mask(),
    {
        WindowState::from_bits_truncate(flag_bits)
    }

    /// The call that asks which display the window is on.
    pub fn display_call(&self) -> (call: NativeCall)
        ensures
            call == (NativeCall::GetWindowDisplayIndex { window: self.addr() }),
    {
        NativeCall::GetWindowDisplayIndex { window: self.window }
    }

    /// Takes the display index that the native layer returned. A negative
    /// index says that the display is not known.
    pub fn display(&self, index: i32) -> (found: Option<Display<'video>>)
        ensures
            found is None <==> index < 0,
            found matches Some(display) ==> display.index_of() == index && display.video()
                == self.video(),
    {
        if index < 0 {
            None
        } else {
            Some(Display::new(index, self.video))
        }
    }

    /// The call that reads the id of the window. The answer is the id.
    pub fn id_call(&self) -> (call: NativeCall)
        ensures
            call == (NativeCall::GetWindowId { window: self.addr() }),
    {
        NativeCall::GetWindowId { window: self.window }
    }

    /// The call that reads the pixel format of the window. The answer is
    /// the native code of the format.
    pub fn pixel_format_call(&self) -> (call: NativeCall)
        ensures
            call == (NativeCall::GetWindowPixelFormat { window: self.addr() }),
    {
        NativeCall::GetWindowPixelFormat { window: self.window }
    }

    /// Gives the handle up. The call returned destroys the native window.
    pub fn release(self) -> (call: NativeCall)
        ensures
            call == (NativeCall::DestroyWindow { window: self.addr() }),
    {
        NativeCall::DestroyWindow { window: self.window }
    }
}

} // verus!
