//! Frames of a sprite and named stretches of them.

use vstd::prelude::*;
use crate::graphics::subtexture::Subtexture;
use crate::rect::Point;

verus! {

/// The frames `from` to `to`, both included, under a name.
#[derive(Debug)]
pub struct Animation {
    pub from: u8,
    pub to: u8,
    pub name: String,
}

/// One image of a sprite: where it lies in the texture, for how many
/// updates it shows beyond the first, and the point of it that is placed at
/// the sprite's position.
#[derive(Clone, Copy, Debug)]
pub struct Frame {
    pub subtexture: Subtexture,
    pub duration: u32,
    pub pivot: Point,
}

} // verus!
