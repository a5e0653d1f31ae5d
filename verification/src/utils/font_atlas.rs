//! A font: the image of its glyphs and their metrics.

use vstd::prelude::*;
use crate::graphics::subtexture::Subtexture;
use crate::graphics::texture::Texture;
use crate::rect::Rect;
use crate::utils::glyph::{Glyph, GlyphData};

verus! {

/// A bitmap font: the texture that shows its glyphs and where each lies.
pub struct FontAtlas {
    pub texture: Texture,
    pub glyph_data: GlyphData,
}

/// The pixels of `glyph` in the image of its font.
pub open spec fn glyph_rect(glyph: Glyph) -> Rect {
    Rect {
        x: glyph.x as i32,
        y: glyph.y as i32,
        w: crate::rect::clamp_size(glyph.width as u32),
        h: crate::rect::clamp_size(glyph.height as u32),
    }
}

impl FontAtlas {
    /// The font whose glyphs lie in `texture` as `glyph_data` says.
    pub fn new(texture: Texture, glyph_data: GlyphData) -> (atlas: Self)
        ensures
            atlas.texture == texture,
            atlas.glyph_data == glyph_data,
    {
        FontAtlas { texture, glyph_data }
    }

    /// Whether the font has a glyph for `character`.
    pub fn has_glyph(&self, character: char) -> (r: bool)
        ensures
            r == self.glyph_data.map@.contains_key(character as u32),
    {
        broadcast use vstd::std_specs::hash::group_hash_axioms;

        self.glyph_data.map.contains_key(&(character as u32))
    }

    /// The region of the image that shows the glyph of `character`, which
    /// the font must have, and the glyph's metrics.
    pub fn get_glyph<N: Fn(i64, u32) -> u32>(&self, character: char, normalize: &N) -> (r: (Subtexture, &Glyph))
        requires
            self.glyph_data.map@.contains_key(character as u32),
            forall|pixel: i64, side: u32| normalize.requires((pixel, side)),
        ensures
            *r.1 == self.glyph_data.map@[character as u32],
            r.0.texture == self.texture,
            r.0.rect == glyph_rect(*r.1),
            crate::graphics::subtexture::is_region(normalize, r.0),
    {
        let glyph = self.glyph_data.get(character);
        let sprite = Subtexture::new(
            self.texture,
            Rect::new(glyph.x as i32, glyph.y as i32, glyph.width as u32, glyph.height as u32),
            normalize,
        );
        (sprite, glyph)
    }
}

} // verus!
