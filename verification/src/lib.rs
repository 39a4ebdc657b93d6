//! A typed, verified layer over the SDL2 native library.
//!
//! The library never talks to the native layer itself. Every operation is
//! split in two: a description of the native routine to invoke
//! ([`native::NativeCall`]) and a function that takes what the routine
//! answered and decides what it means. Geometry and event decoding are pure
//! and are computed here.
//!
//! The handles form a chain: [`sdl::Sdl`], [`video::Video`],
//! [`video::window::Window`], [`video::renderer::Renderer`] and
//! [`video::renderer::pen::Pen`]. Each is made from a reference to the one
//! before it and is released by value, so a handle cannot be made without a
//! live parent, cannot outlive it, and cannot be used once released.

pub mod color;
pub mod event;
pub mod geo;
pub mod native;
pub mod sdl;
pub mod video;
