//! Joystick input.

pub mod guid;
