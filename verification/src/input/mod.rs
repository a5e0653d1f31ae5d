//! The state of the keyboard and of the mouse, frame by frame.

pub mod keyboard;
pub mod mouse;
