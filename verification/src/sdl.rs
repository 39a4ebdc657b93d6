//! The root handle.

use vstd::prelude::*;

use crate::native::{Fatal, NativeCall};

verus! {

/// The initialized native library. Every other handle descends from it.
#[derive(Debug)]
pub struct Sdl {
    sealed: (),
}

impl Sdl {
    /// The call that initializes the native library, with no subsystem yet.
    pub fn init_call() -> (call: NativeCall)
        ensures
            call == (NativeCall::Init { flags: 0 }),
    {
        NativeCall::Init { flags: 0 }
    }

    /// Takes the status that the initialization returned. A status other
    /// than zero is fatal.
    pub fn new(status: i32) -> (made: Result<Sdl, Fatal>)
        ensures
            made is Ok <==> status == 0,
            made matches Err(failure) ==> failure == Fatal::Sdl,
    {
        if status == 0 {
            Ok(Sdl { sealed: () })
        } else {
            Err(Fatal::Sdl)
        }
    }

    /// Gives the handle up. The call returned shuts the native library
    /// down.
    pub fn release(self) -> (call: NativeCall)
        ensures
            call == NativeCall::Quit,
    {
        NativeCall::Quit
    }
}

} // verus!
