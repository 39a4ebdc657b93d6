//! Events, decoded from the records and codes of the native layer.

pub mod game_controller;
pub mod joystick;
pub mod mouse;
