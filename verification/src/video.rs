//! The video subsystem.

use vstd::prelude::*;

use crate::native::{Fatal, NativeCall, INIT_VIDEO};
use crate::sdl::Sdl;

pub mod display;
pub mod renderer;
pub mod window;

verus! {

/// The initialized video subsystem.
#[derive(Debug)]
pub struct Video<'sdl> {
    sdl: &'sdl Sdl,
}

impl<'sdl> Video<'sdl> {
    /// The root handle that this subsystem was brought up under.
    pub closed spec fn sdl(self) -> Sdl {
        *self.sdl
    }

    /// The call that brings the video subsystem up.
    pub fn init_call() -> (call: NativeCall)
        ensures
            call == (NativeCall::InitSubSystem { flags: INIT_VIDEO }),
    {
        NativeCall::InitSubSystem { flags: INIT_VIDEO }
    }

    /// Takes the status that bringing the subsystem up returned. A status
    /// other than zero is fatal.
    pub fn new(sdl: &'sdl Sdl, status: i32) -> (made: Result<Video<'sdl>, Fatal>)
        ensures
            made is Ok <==> status == 0,
            made matches Ok(video) ==> video.sdl() == *sdl,
            made matches Err(failure) ==> failure == Fatal::Video,
    {
        if status == 0 {
            Ok(Video { sdl })
        } else {
            Err(Fatal::Video)
        }
    }

    /// Gives the handle up. The call returned shuts the video subsystem
    /// down.
    pub fn release(self) -> (call: NativeCall)
        ensures
            call == (NativeCall::QuitSubSystem { flags: INIT_VIDEO }),
    {
        NativeCall::QuitSubSystem { flags: INIT_VIDEO }
    }
}

} // verus!
