//! Game controller input.

pub mod button;
