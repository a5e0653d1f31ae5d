//! Integer parts of the debug interface: layout direction, colours of a
//! button under the pointer, the size of a line of text.

use vstd::prelude::*;
use crate::utils::font_atlas::FontAtlas;
use crate::utils::glyph::Glyph;

verus! {

/// Most windows that can be shown in one frame.
pub const MAX_WINDOWS: usize = 8;

/// Most widgets that a window can hold.
pub const MAX_WIDGETS: usize = 26;

/// The direction in which the widgets of a window follow each other.
#[derive(Clone, Copy, Debug, PartialEq, Eq, Structural)]
pub enum Direction {
    Horizontal,
    Vertical,
}

impl Default for Direction {
    fn default() -> (direction: Self)
        ensures
            direction == Direction::Vertical,
    {
        Direction::Vertical
    }
}

/// `a + b`, or 255 if the sum is larger.
pub open spec fn saturating_sum(a: u8, b: u8) -> u8 {
    if a + b > 255 {
        255
    } else {
        (a + b) as u8
    }
}

/// Adds two colours channel by channel; a channel never goes past 255.
pub fn add_arrays(a: &[u8; 4], b: &[u8; 4]) -> (result: [u8; 4])
    ensures
        forall|i: int| 0 <= i < 4 ==> result[i] == saturating_sum(a[i], b[i]),
{
    [
        channel_sum(a[0], b[0]),
        channel_sum(a[1], b[1]),
        channel_sum(a[2], b[2]),
        channel_sum(a[3], b[3]),
    ]
}

fn channel_sum(a: u8, b: u8) -> (sum: u8)
    ensures
        sum == saturating_sum(a, b),
{
    if a > 255 - b {
        255
    } else {
        a + b
    }
}

/// How far below the line's top the glyph ends.
pub open spec fn glyph_bottom(glyph: Glyph) -> int {
    glyph.height + glyph.y_offset
}

/// Width of the glyphs of `text` set one after the other: the sum of their
/// advances.
pub open spec fn text_width(glyphs: Map<u32, Glyph>, text: Seq<char>) -> int
    decreases text.len(),
{
    if text.len() == 0 {
        0
    } else {
        text_width(glyphs, text.drop_last()) + glyphs[text.last() as u32].x_advance
    }
}

/// Height of a line that holds `text`: how far the lowest of its glyphs
/// reaches below the line's top, and no less than nothing.
pub open spec fn text_height(glyphs: Map<u32, Glyph>, text: Seq<char>) -> int
    decreases text.len(),
{
    if text.len() == 0 {
        0
    } else {
        let before = text_height(glyphs, text.drop_last());
        let bottom = glyph_bottom(glyphs[text.last() as u32]);
        if bottom > before {
            bottom
        } else {
            before
        }
    }
}

/// The width and height in pixels of `text` set in the font `atlas`, which
/// must have a glyph for every character of it.
pub fn measure_text(text: &str, atlas: &FontAtlas) -> (size: (u64, i32))
    requires
        forall|i: int| 0 <= i < text@.len() ==> atlas.glyph_data.map@.contains_key(#[trigger] text@[i] as u32),
        text@.len() <= u32::MAX,
    ensures
        size.0 == text_width(atlas.glyph_data.map@, text@),
        size.1 == text_height(atlas.glyph_data.map@, text@),
{
    let count = text.unicode_len();
    let mut width: u64 = 0;
    let mut height: i32 = 0;
    let mut i: usize = 0;
    while i < count
        invariant
            i <= count,
            count == text@.len(),
            count <= u32::MAX,
            forall|j: int| 0 <= j < text@.len() ==> atlas.glyph_data.map@.contains_key(#[trigger] text@[j] as u32),
            width == text_width(atlas.glyph_data.map@, text@.take(i as int)),
            height == text_height(atlas.glyph_data.map@, text@.take(i as int)),
            width <= i * 65535,
            0 <= height <= 98302,
        decreases count - i,
    {
        let character = text.get_char(i);
        assert(text@.take(i + 1).drop_last() =~= text@.take(i as int));
        assert(atlas.glyph_data.map@.contains_key(text@[i as int] as u32));
        let glyph = atlas.glyph_data.get(character);
        assert(i * 65535 + 65535 <= 4294967295 * 65535) by (nonlinear_arith)
            requires
                i < 4294967295,
        ;
        width = width + glyph.x_advance as u64;
        let bottom = glyph.height as i32 + glyph.y_offset as i32;
        if bottom > height {
            height = bottom;
        }
        i = i + 1;
    }
    assert(text@.take(i as int) =~= text@);
    (width, height)
}

} // verus!
