//! The world of the game: grids of cells, rooms of tiles.

pub mod camera;
pub mod grid;
pub mod level;
pub mod player;
pub mod room;
pub mod sprite;
pub mod world;
