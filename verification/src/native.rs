//! What the native layer is asked to do, and what its failures mean.
//!
//! A [`NativeCall`] names one native routine and carries its arguments as
//! plain values. Handles are carried as the address the native layer gave.
//! Whoever performs the call hands the answer back to the function of this
//! library that the call came with.

use vstd::prelude::*;

use crate::geo::Point;

verus! {

/// The subsystem flag of the video subsystem.
pub const INIT_VIDEO: u32 = 0x20;

/// The alpha value of a fully opaque color.
pub const ALPHA_OPAQUE: u8 = 255;

/// The renderer index that lets the native layer pick the first driver that
/// fits.
pub const FIRST_FITTING_DRIVER: i32 = -1;

/// Bytes that the text of a joystick identity takes: two digits for each of
/// its sixteen bytes, and the terminator.
pub const GUID_TEXT_CAPACITY: usize = 33;

/// One invocation of a native routine.
#[derive(Debug, PartialEq, Eq)]
pub enum NativeCall {
    /// `SDL_Init`
    Init { flags: u32 },
    /// `SDL_Quit`
    Quit,
    /// `SDL_InitSubSystem`
    InitSubSystem { flags: u32 },
    /// `SDL_QuitSubSystem`
    QuitSubSystem { flags: u32 },
    /// `SDL_GetWindowFromID`
    GetWindowFromId { id: u32 },
    /// `SDL_GetGrabbedWindow`
    GetGrabbedWindow,
    /// `SDL_GetWindowFlags`
    GetWindowFlags { window: usize },
    /// `SDL_GetWindowDisplayIndex`
    GetWindowDisplayIndex { window: usize },
    /// `SDL_GetWindowID`
    GetWindowId { window: usize },
    /// `SDL_GetWindowPixelFormat`
    GetWindowPixelFormat { window: usize },
    /// `SDL_DestroyWindow`
    DestroyWindow { window: usize },
    /// `SDL_CreateRenderer`
    CreateRenderer { window: usize, index: i32, flags: u32 },
    /// `SDL_GetRendererOutputSize`
    GetRendererOutputSize { renderer: usize },
    /// `SDL_DestroyRenderer`
    DestroyRenderer { renderer: usize },
    /// `SDL_SetRenderDrawColor`
    SetRenderDrawColor { renderer: usize, r: u8, g: u8, b: u8, a: u8 },
    /// `SDL_RenderClear`
    RenderClear { renderer: usize },
    /// `SDL_RenderDrawLine`
    RenderDrawLine { renderer: usize, x1: i32, y1: i32, x2: i32, y2: i32 },
    /// `SDL_RenderDrawLines`
    RenderDrawLines { renderer: usize, points: Vec<Point> },
    /// `SDL_RenderDrawPoint`
    RenderDrawPoint { renderer: usize, x: i32, y: i32 },
    /// `SDL_RenderDrawPoints`
    RenderDrawPoints { renderer: usize, points: Vec<Point> },
    /// `SDL_RenderPresent`
    RenderPresent { renderer: usize },
    /// `SDL_JoystickGetGUIDString`, into a buffer of `capacity` bytes
    JoystickGetGuidString { data: [u8; 16], capacity: usize },
    /// `SDL_JoystickGetGUIDFromString`
    JoystickGetGuidFromString { text: String },
    /// `SDL_GameControllerGetStringForButton`
    GameControllerGetStringForButton { button: i32 },
}

/// A failure of the native layer after which the graphics stack cannot go
/// on. Each value says which step failed.
#[derive(Debug, Clone, Copy, PartialEq, Eq, Structural)]
pub enum Fatal {
    Sdl,
    Video,
    Renderer,
    OutputSize,
    PenColor,
    PenClear,
    PenLine,
    PenLines,
    PenPoint,
    PenPoints,
}

impl Fatal {
    /// The words that tell the failed step, to go before the native layer's
    /// own error text.
    pub open spec fn context_text(self) -> Seq<char> {
        match self {
            Fatal::Sdl => "Sdl"@,
            Fatal::Video => "Sdl video"@,
            Fatal::Renderer => "Sdl renderer"@,
            Fatal::OutputSize => "Sdl renderer output size"@,
            Fatal::PenColor => "Sdl pen color"@,
            Fatal::PenClear => "Sdl pen clear"@,
            Fatal::PenLine => "Sdl pen line"@,
            Fatal::PenLines => "Sdl pen lines"@,
            Fatal::PenPoint => "Sdl pen point"@,
            Fatal::PenPoints => "Sdl pen points"@,
        }
    }

    /// The words that tell the failed step.
    pub fn context(&self) -> (text: &'static str)
        ensures
            text@ == self.context_text(),
    {
        match self {
            Fatal::Sdl => "Sdl",
            Fatal::Video => "Sdl video",
            Fatal::Renderer => "Sdl renderer",
            Fatal::OutputSize => "Sdl renderer output size",
            Fatal::PenColor => "Sdl pen color",
            Fatal::PenClear => "Sdl pen clear",
            Fatal::PenLine => "Sdl pen line",
            Fatal::PenLines => "Sdl pen lines",
            Fatal::PenPoint => "Sdl pen point",
            Fatal::PenPoints => "Sdl pen points",
        }
    }
}

impl Fatal {
    /// The message that reports the failure: the failed step, then the
    /// native layer's own error text.
    pub open spec fn report_text(self, native_error: Seq<char>) -> Seq<char> {
        self.context_text() + " error: "@ + native_error
    }

    /// The message that reports the failure, made with the error text that
    /// the native layer gave last.
    pub fn report(&self, native_error: &str) -> (text: String)
        ensures
            text@ == self.report_text(native_error@),
    {
        String::from_str(self.context()).concat(" error: ").concat(native_error)
    }
}

impl NativeCall {
    /// The failure that a status other than zero means for this call, for
    /// the routines that report a status and whose failure is fatal.
    pub open spec fn failure(self) -> Option<Fatal> {
        match self {
            NativeCall::Init { .. } => Some(Fatal::Sdl),
            NativeCall::InitSubSystem { .. } => Some(Fatal::Video),
            NativeCall::GetRendererOutputSize { .. } => Some(Fatal::OutputSize),
            NativeCall::SetRenderDrawColor { .. } => Some(Fatal::PenColor),
            NativeCall::RenderClear { .. } => Some(Fatal::PenClear),
            NativeCall::RenderDrawLine { .. } => Some(Fatal::PenLine),
            NativeCall::RenderDrawLines { .. } => Some(Fatal::PenLines),
            NativeCall::RenderDrawPoint { .. } => Some(Fatal::PenPoint),
            NativeCall::RenderDrawPoints { .. } => Some(Fatal::PenPoints),
            _ => None,
        }
    }

    /// What the status that the native routine returned means.
    pub open spec fn outcome(self, status: i32) -> Result<(), Fatal> {
        if status != 0 && self.failure() is Some {
            Err(self.failure().unwrap())
        } else {
            Ok(())
        }
    }

    /// Decides on the status that the native routine returned for this
    /// call: zero is success, anything else is the fatal failure of the
    /// step that the call stands for.
    pub fn settle(&self, status: i32) -> (outcome: Result<(), Fatal>)
        ensures
            outcome == self.outcome(status),
    {
        if status == 0 {
            return Ok(());
        }
        match self {
            NativeCall::Init { .. } => Err(Fatal::Sdl),
            NativeCall::InitSubSystem { .. } => Err(Fatal::Video),
            NativeCall::GetRendererOutputSize { .. } => Err(Fatal::OutputSize),
            NativeCall::SetRenderDrawColor { .. } => Err(Fatal::PenColor),
            NativeCall::RenderClear { .. } => Err(Fatal::PenClear),
            NativeCall::RenderDrawLine { .. } => Err(Fatal::PenLine),
            NativeCall::RenderDrawLines { .. } => Err(Fatal::PenLines),
            NativeCall::RenderDrawPoint { .. } => Err(Fatal::PenPoint),
            NativeCall::RenderDrawPoints { .. } => Err(Fatal::PenPoints),
            _ => Ok(()),
        }
    }
}

} // verus!
