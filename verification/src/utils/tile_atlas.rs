//! A texture cut into square tiles.

use vstd::prelude::*;
use crate::graphics::subtexture::Subtexture;
use crate::graphics::texture::Texture;
use crate::rect::Rect;

verus! {

/// A texture whose sides are whole numbers of tiles of `tile_size` pixels.
/// Tiles are numbered row by row from the top left.
pub struct TileAtlas {
    texture: Texture,
    tiles_width: u16,
    tiles_height: u16,
    tile_size: u16,
}

/// What a tile atlas holds.
pub struct TileAtlasView {
    pub texture: Texture,
    /// Tiles in a row.
    pub tiles_width: u16,
    /// Rows of tiles.
    pub tiles_height: u16,
    /// Side of a tile in pixels.
    pub tile_size: u16,
}

impl TileAtlasView {
    /// The pixels of the tile in column `x` of row `y`.
    pub open spec fn tile_rect(self, x: int, y: int) -> Rect {
        Rect {
            x: crate::rect::clamp_position((x * self.tile_size) as i32),
            y: crate::rect::clamp_position((y * self.tile_size) as i32),
            w: crate::rect::clamp_size(self.tile_size as u32),
            h: crate::rect::clamp_size(self.tile_size as u32),
        }
    }
}

impl TileAtlas {
    pub closed spec fn view(&self) -> TileAtlasView {
        TileAtlasView {
            texture: self.texture,
            tiles_width: self.tiles_width,
            tiles_height: self.tiles_height,
            tile_size: self.tile_size,
        }
    }

    /// Cuts `texture` into tiles of `tile_size` pixels, which must divide
    /// both sides of the texture.
    pub fn new(texture: Texture, tile_size: u16) -> (atlas: Self)
        requires
            tile_size > 0,
            texture.width % tile_size == 0,
            texture.height % tile_size == 0,
        ensures
            atlas@ == (TileAtlasView {
                texture,
                tiles_width: texture.width / tile_size,
                tiles_height: texture.height / tile_size,
                tile_size,
            }),
    {
        let tiles_width = texture.width / tile_size;
        let tiles_height = texture.height / tile_size;
        TileAtlas { texture, tiles_width, tiles_height, tile_size }
    }

    /// Whether `texture` can be cut into tiles of `tile_size` pixels.
    pub fn divides(texture: &Texture, tile_size: u16) -> (r: bool)
        ensures
            r == (tile_size > 0 && texture.width % tile_size == 0 && texture.height % tile_size == 0),
    {
        tile_size > 0 && texture.width % tile_size == 0 && texture.height % tile_size == 0
    }

    /// Tiles in a row.
    pub fn tiles_width(&self) -> (n: u16)
        ensures
            n == self@.tiles_width,
    {
        self.tiles_width
    }

    /// Rows of tiles.
    pub fn tiles_height(&self) -> (n: u16)
        ensures
            n == self@.tiles_height,
    {
        self.tiles_height
    }

    /// Side of a tile in pixels.
    pub fn tile_size(&self) -> (n: u16)
        ensures
            n == self@.tile_size,
    {
        self.tile_size
    }

    /// The tile with the number `index`.
    pub fn get_at_index<N: Fn(i64, u32) -> u32>(&self, index: usize, normalize: &N) -> (tile: Subtexture)
        requires
            self@.tiles_width > 0,
            (index / self@.tiles_width as usize) * self@.tile_size <= i32::MAX,
            forall|pixel: i64, side: u32| normalize.requires((pixel, side)),
        ensures
            tile.texture == self@.texture,
            tile.rect == self@.tile_rect(
                index as int % self@.tiles_width as int,
                index as int / self@.tiles_width as int,
            ),
            crate::graphics::subtexture::is_region(normalize, tile),
    {
        let x = index % self.tiles_width as usize;
        let y = index / self.tiles_width as usize;
        assert(x * self.tile_size <= 65535 * 65535) by (nonlinear_arith)
            requires
                x <= 65535,
                self.tile_size <= 65535,
        ;
        let rect = Rect::new(
            (x * self.tile_size as usize) as i32,
            (y * self.tile_size as usize) as i32,
            self.tile_size as u32,
            self.tile_size as u32,
        );
        Subtexture::new(self.texture, rect, normalize)
    }

    /// The tile in column `x` of row `y`.
    pub fn get<N: Fn(i64, u32) -> u32>(&self, x: u16, y: u16, normalize: &N) -> (tile: Subtexture)
        requires
            x * self@.tile_size <= u16::MAX,
            y * self@.tile_size <= u16::MAX,
            forall|pixel: i64, side: u32| normalize.requires((pixel, side)),
        ensures
            tile.texture == self@.texture,
            tile.rect == self@.tile_rect(x as int, y as int),
            crate::graphics::subtexture::is_region(normalize, tile),
    {
        let rect = Rect::new(
            (x * self.tile_size) as i32,
            (y * self.tile_size) as i32,
            self.tile_size as u32,
            self.tile_size as u32,
        );
        Subtexture::new(self.texture, rect, normalize)
    }

    /// A walk over the tiles by number, starting at the first. It ends after
    /// as many tiles as the square of the rows, which is all of them in an
    /// atlas of as many columns as rows.
    pub fn iter(&self) -> (walk: TextureAtlasIterator<'_>)
        requires
            self@.tiles_height * self@.tiles_height <= u16::MAX,
        ensures
            walk.index == 0,
            walk.tile_count == self@.tiles_height * self@.tiles_height,
            walk.atlas@ == self@,
    {
        TextureAtlasIterator {
            atlas: self,
            index: 0,
            tile_count: (self.tiles_height * self.tiles_height) as usize,
        }
    }
}

/// A walk over the tiles of an atlas by number.
pub struct TextureAtlasIterator<'a> {
    pub atlas: &'a TileAtlas,
    /// Number of the next tile.
    pub index: usize,
    /// Number behind the last tile of the walk.
    pub tile_count: usize,
}

impl<'a> TextureAtlasIterator<'a> {
    /// The next tile, or `None` at the end of the walk.
    pub fn next<N: Fn(i64, u32) -> u32>(&mut self, normalize: &N) -> (tile: Option<Subtexture>)
        requires
            old(self).atlas@.tiles_width > 0,
            old(self).tile_count * old(self).atlas@.tile_size <= i32::MAX,
            forall|pixel: i64, side: u32| normalize.requires((pixel, side)),
        ensures
            final(self).atlas == old(self).atlas,
            final(self).tile_count == old(self).tile_count,
            match tile {
                Some(tile) => {
                    &&& old(self).index < old(self).tile_count
                    &&& final(self).index == old(self).index + 1
                    &&& tile.texture == old(self).atlas@.texture
                    &&& tile.rect == old(self).atlas@.tile_rect(
                        old(self).index as int % old(self).atlas@.tiles_width as int,
                        old(self).index as int / old(self).atlas@.tiles_width as int,
                    )
                    &&& crate::graphics::subtexture::is_region(normalize, tile)
                },
                None => old(self).index >= old(self).tile_count && final(self).index == old(self).index,
            },
    {
        if self.index >= self.tile_count {
            return None;
        }
        let current_index = self.index;
        self.index = self.index + 1;
        let ghost row = current_index as int / self.atlas@.tiles_width as int;
        assert(row * self.atlas@.tile_size <= self.tile_count * self.atlas@.tile_size) by (nonlinear_arith)
            requires
                0 <= row <= current_index < self.tile_count,
                0 <= self.atlas@.tile_size,
        ;
        Some(self.atlas.get_at_index(current_index, normalize))
    }
}

} // verus!
