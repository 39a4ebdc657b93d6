//! Renderers.

use vstd::prelude::*;

use crate::geo::Size;
use crate::native::{Fatal, NativeCall, FIRST_FITTING_DRIVER};
use crate::video::window::Window;

pub mod pen;

verus! {

/// A native rendering context, bound to the window it was made for.
#[derive(Debug)]
pub struct Renderer<'window> {
    renderer: usize,
    window: &'window Window<'window>,
}

impl<'window> Renderer<'window> {
    #[verifier::type_invariant]
    spec fn handle_is_not_null(self) -> bool {
        self.renderer != 0
    }

    /// The address of the native rendering context.
    pub closed spec fn addr(self) -> usize {
        self.renderer
    }

    /// The window that the renderer draws to.
    pub closed spec fn window(self) -> Window<'window> {
        *self.window
    }

    /// The size that the native layer reported: each part is the number it
    /// gave, read as an unsigned number of the same 32 bits.
    pub open spec fn reported_size(width: i32, height: i32) -> Size {
        Size { width: width as u32, height: height as u32 }
    }

    /// The call that creates a renderer for `window`, with the first driver
    /// that fits and no flags.
    pub fn new_call(window: &Window) -> (call: NativeCall)
        ensures
            call == (NativeCall::CreateRenderer {
                window: window.addr(),
                index: FIRST_FITTING_DRIVER,
                flags: 0,
            }),
    {
        NativeCall::CreateRenderer { window: window.as_ptr(), index: FIRST_FITTING_DRIVER, flags: 0 }
    }

    /// Takes the address that the creation returned. A null address is
    /// fatal.
    pub fn new(window: &'window Window<'window>, addr: usize) -> (made: Result<
        Renderer<'window>,
        Fatal,
    >)
        ensures
            made is Ok <==> addr != 0,
            made matches Ok(renderer) ==> renderer.addr() == addr && renderer.window() == *window,
            made matches Err(failure) ==> failure == Fatal::Renderer,
    {
        if addr == 0 {
            Err(Fatal::Renderer)
        } else {
            Ok(Renderer { renderer: addr, window })
        }
    }

    /// The address of the native rendering context, to derive other handles
    /// from. It is never null.
    pub fn as_ptr(&self) -> (addr: usize)
        ensures
            addr == self.addr(),
            addr != 0,
    {
        proof {
            use_type_invariant(self);
        }
        self.renderer
    }

    /// The call that reads the output size of the renderer.
    pub fn output_size_call(&self) -> (call: NativeCall)
        ensures
            call == (NativeCall::GetRendererOutputSize { renderer: self.addr() }),
    {
        NativeCall::GetRendererOutputSize { renderer: self.renderer }
    }

    /// Takes the status and the two numbers that the native layer returned
    /// for the output size. A status other than zero is fatal.
    pub fn output_size(&self, status: i32, width: i32, height: i32) -> (size: Result<Size, Fatal>)
        ensures
            size == (if status == 0 {
                Ok(Renderer::reported_size(width, height))
            } else {
                Err(Fatal::OutputSize)
            }),
    {
        if status != 0 {
            Err(Fatal::OutputSize)
        } else {
            Ok(
                Size {
                    width: #[verifier::truncate]
                    (width as u32),
                    height: #[verifier::truncate]
                    (height as u32),
                },
            )
        }
    }

    /// Gives the handle up. The call returned destroys the native rendering
    /// context.
    pub fn release(self) -> (call: NativeCall)
        ensures
            call == (NativeCall::DestroyRenderer { renderer: self.addr() }),
    {
        NativeCall::DestroyRenderer { renderer: self.renderer }
    }
}

} // verus!
