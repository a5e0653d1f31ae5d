//! The core of a small 2D game runtime.
//!
//! Its centre is the renderer in [`graphics`]: draw calls are gathered into
//! runs that share a material and a texture, in the order in which they were
//! made, and a frame is handed out as a list of GPU commands for a backend to
//! replay. Around it stand the parts of the game that are plain logic: input
//! state, the tiles of rooms and the collision with them, sprites and fonts
//! and the files they are read from.
//!
//! The crate never computes with floating-point numbers. A coordinate is
//! carried as the bit pattern of an IEEE-754 single-precision number, and
//! where arithmetic on coordinates is needed, the caller supplies it as a
//! function.

pub mod game;
pub mod graphics;
pub mod input;
pub mod memory;
pub mod rect;
pub mod ui;
pub mod utils;
