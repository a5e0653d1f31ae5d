//! Subtextures: a rectangle of pixels inside a texture.

use vstd::prelude::*;
use crate::graphics::texture::Texture;
use crate::rect::Rect;

verus! {

/// The normalized texture coordinates of the four sides of a region. Each
/// field holds the bit pattern of a single-precision number.
#[derive(Clone, Copy, Debug, PartialEq, Eq)]
pub struct UvRect {
    pub left: u32,
    pub top: u32,
    pub right: u32,
    pub bottom: u32,
}

impl UvRect {
    /// The texture coordinates of the corners: top left, top right, bottom
    /// left, bottom right.
    pub open spec fn corners(self) -> [[u32; 2]; 4] {
        [[self.left, self.top], [self.right, self.top], [self.left, self.bottom], [self.right, self.bottom]]
    }

    /// The region mirrored along the axes that are named.
    pub open spec fn flipped(self, flip_x: bool, flip_y: bool) -> UvRect {
        UvRect {
            left: if flip_x { self.right } else { self.left },
            right: if flip_x { self.left } else { self.right },
            top: if flip_y { self.bottom } else { self.top },
            bottom: if flip_y { self.top } else { self.bottom },
        }
    }
}

/// A rectangular region of a texture, with its texture coordinates computed
/// once.
#[derive(Clone, Copy, Debug)]
pub struct Subtexture {
    pub texture: Texture,
    /// The region in pixels.
    pub rect: Rect,
    /// The region in normalized texture coordinates.
    pub uvs: UvRect,
}

/// Whether the texture coordinates of `sub` are what `normalize` makes of the
/// sides of its rectangle: the left and right side against the width of the
/// texture, the top and bottom side against its height.
pub open spec fn is_region<N: Fn(i64, u32) -> u32>(normalize: &N, sub: Subtexture) -> bool {
    &&& normalize.ensures((sub.rect.x as i64, sub.texture.width as u32), sub.uvs.left)
    &&& normalize.ensures((sub.rect.y as i64, sub.texture.height as u32), sub.uvs.top)
    &&& normalize.ensures(((sub.rect.x + sub.rect.w) as i64, sub.texture.width as u32), sub.uvs.right)
    &&& normalize.ensures(((sub.rect.y + sub.rect.h) as i64, sub.texture.height as u32), sub.uvs.bottom)
}

impl Subtexture {
    /// The region `rect` of `texture`. `normalize` turns a pixel coordinate
    /// and the length of the texture's side into a texture coordinate; it is
    /// asked for the left and right side against the width and for the top
    /// and bottom side against the height.
    pub fn new<N: Fn(i64, u32) -> u32>(texture: Texture, rect: Rect, normalize: &N) -> (sub: Self)
        requires
            forall|pixel: i64, side: u32| normalize.requires((pixel, side)),
        ensures
            sub.texture == texture,
            sub.rect == rect,
            is_region(normalize, sub),
    {
        let left = normalize(rect.x as i64, texture.width());
        let top = normalize(rect.y as i64, texture.height());
        let right = normalize(rect.x as i64 + rect.w as i64, texture.width());
        let bottom = normalize(rect.y as i64 + rect.h as i64, texture.height());
        Subtexture { texture, rect, uvs: UvRect { left, top, right, bottom } }
    }

    /// Mirrors the region along the axes that are named: a mirrored axis has
    /// its two sides exchanged.
    pub fn flip(&mut self, flip_x: bool, flip_y: bool)
        ensures
            final(self).texture == old(self).texture,
            final(self).rect == old(self).rect,
            final(self).uvs == old(self).uvs.flipped(flip_x, flip_y),
    {
        if flip_x {
            let left = self.uvs.left;
            self.uvs.left = self.uvs.right;
            self.uvs.right = left;
        }
        if flip_y {
            let top = self.uvs.top;
            self.uvs.top = self.uvs.bottom;
            self.uvs.bottom = top;
        }
    }
}

/// Mirroring a region twice along the same axes gives the region back.
pub proof fn lemma_flip_involution(uvs: UvRect, flip_x: bool, flip_y: bool)
    ensures
        uvs.flipped(flip_x, flip_y).flipped(flip_x, flip_y) == uvs,
{
}

} // verus!
