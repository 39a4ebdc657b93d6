//! The drawing context of a renderer.

use vstd::prelude::*;

use crate::color::Color;
use crate::geo::{Line, Point};
use crate::native::{NativeCall, ALPHA_OPAQUE};
use crate::video::renderer::Renderer;

verus! {

/// A drawing session on a renderer.
///
/// The pen keeps no state of its own: each method gives the native call
/// that draws on the renderer the pen was made for. What was drawn shows
/// only once the pen is released, which presents it.
#[derive(Debug)]
pub struct Pen<'renderer> {
    renderer: &'renderer Renderer<'renderer>,
}

impl<'renderer> Pen<'renderer> {
    /// The renderer that the pen draws on.
    pub closed spec fn renderer(self) -> Renderer<'renderer> {
        *self.renderer
    }

    /// The address of the native rendering context that the pen draws on.
    pub open spec fn target(self) -> usize {
        self.renderer().addr()
    }

    /// Starts a drawing session on `renderer`.
    pub fn new(renderer: &'renderer Renderer<'renderer>) -> (pen: Pen<'renderer>)
        ensures
            pen.renderer() == *renderer,
    {
        Pen { renderer }
    }

    /// The call that sets the color to draw with, fully opaque.
    pub fn set_color(&self, color: Color) -> (call: NativeCall)
        ensures
            call == (NativeCall::SetRenderDrawColor {
                renderer: self.target(),
                r: color.r,
                g: color.g,
                b: color.b,
                a: ALPHA_OPAQUE,
            }),
    {
        NativeCall::SetRenderDrawColor {
            renderer: self.renderer.as_ptr(),
            r: color.r,
            g: color.g,
            b: color.b,
            a: ALPHA_OPAQUE,
        }
    }

    /// The call that fills the whole target with the color.
    pub fn clear(&self) -> (call: NativeCall)
        ensures
            call == (NativeCall::RenderClear { renderer: self.target() }),
    {
        NativeCall::RenderClear { renderer: self.renderer.as_ptr() }
    }

    /// The call that draws `line` from its start to its end.
    pub fn line(&self, line: Line) -> (call: NativeCall)
        ensures
            call == (NativeCall::RenderDrawLine {
                renderer: self.target(),
                x1: line.start.x,
                y1: line.start.y,
                x2: line.end.x,
                y2: line.end.y,
            }),
    {
        NativeCall::RenderDrawLine {
            renderer: self.renderer.as_ptr(),
            x1: line.start.x,
            y1: line.start.y,
            x2: line.end.x,
            y2: line.end.y,
        }
    }

    /// The call that draws the segments that join each of `points` to the
    /// next.
    pub fn lines(&self, points: Vec<Point>) -> (call: NativeCall)
        ensures
            call == (NativeCall::RenderDrawLines { renderer: self.target(), points }),
    {
        NativeCall::RenderDrawLines { renderer: self.renderer.as_ptr(), points }
    }

    /// The call that draws the single point `point`.
    pub fn point(&self, point: Point) -> (call: NativeCall)
        ensures
            call == (NativeCall::RenderDrawPoint { renderer: self.target(), x: point.x, y: point.y }),
    {
        NativeCall::RenderDrawPoint { renderer: self.renderer.as_ptr(), x: point.x, y: point.y }
    }

    /// The call that draws each of `points`.
    pub fn points(&self, points: Vec<Point>) -> (call: NativeCall)
        ensures
            call == (NativeCall::RenderDrawPoints { renderer: self.target(), points }),
    {
        NativeCall::RenderDrawPoints { renderer: self.renderer.as_ptr(), points }
    }

    /// Ends the drawing session. The call returned presents what was drawn;
    /// the pen is gone, so nothing more can be drawn with it.
    pub fn release(self) -> (call: NativeCall)
        ensures
            call == (NativeCall::RenderPresent { renderer: self.target() }),
    {
        NativeCall::RenderPresent { renderer: self.renderer.as_ptr() }
    }
}

} // verus!
