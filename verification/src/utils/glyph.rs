//! Glyph metrics of a bitmap font, and the text format they are read from.
//!
//! A font file is a text of lines. A line whose first word is `char`
//! describes one glyph; every further word of it has the form `key=value`:
//!
//! ```text
//! char id=38 x=92 y=64 width=9 height=14 xoffset=0 yoffset=3 xadvance=8 page=0 chnl=15
//! ```
//!
//! Lines that start with another word are passed over.

use vstd::prelude::*;
use std::collections::HashMap;
use crate::utils::text::{
    before_marks, chars_of, drop_marks, find_line_end, find_mark, find_word_end, find_word_start, lemma_first_where,
    line_end, mark_position, number, past_marks, read_number, reads, skip_marks, word_end, word_start, Stop,
};

verus! {

/// Where a glyph lies in the font's image and how it is placed on a line.
#[derive(Clone, Copy, Debug, PartialEq, Eq, Structural)]
pub struct Glyph {
    pub id: u32,
    pub x: u16,
    pub y: u16,
    pub width: u16,
    pub height: u16,
    pub x_offset: i16,
    pub y_offset: i16,
    pub x_advance: u16,
}

impl Default for Glyph {
    fn default() -> (glyph: Self)
        ensures
            glyph == blank_glyph(),
    {
        Glyph { id: 0, x: 0, y: 0, width: 0, height: 0, x_offset: 0, y_offset: 0, x_advance: 0 }
    }
}

/// The glyphs of a font by character code.
pub struct GlyphData {
    pub map: HashMap<u32, Glyph>,
}

/// Why a text is no font file.
#[derive(Clone, Copy, Debug, PartialEq, Eq, Structural)]
pub enum FontError {
    /// A line holds no word.
    EmptyLine,
    /// A word of a glyph's line holds no `=`.
    MissingValue,
    /// The value of a known key is no number of the key's range.
    InvalidNumber,
}

/// The glyph whose fields are all zero.
pub open spec fn blank_glyph() -> Glyph {
    Glyph { id: 0, x: 0, y: 0, width: 0, height: 0, x_offset: 0, y_offset: 0, x_advance: 0 }
}

/// The key and the value of the word from `from` to `end`, or `None` if the
/// word holds no `=`. The key is what stands before the first `=`. The value
/// is what stands between the first `=` and the second, or the end of the
/// word, without the double quotes at its ends.
pub open spec fn field(text: Seq<char>, from: int, end: int) -> Option<(Seq<char>, Seq<char>)> {
    let equals = mark_position(text, from, end, '=');
    if equals >= end {
        None
    } else {
        let stop = mark_position(text, equals + 1, end, '=');
        let open = past_marks(text, equals + 1, stop, '"');
        let close = before_marks(text, open, stop, '"');
        Some((text.subrange(from, equals), text.subrange(open, close)))
    }
}

/// The glyph with the field that `key` names set to the number that `value`
/// stands for. Unknown keys leave the glyph as it is.
pub open spec fn with_field(glyph: Glyph, key: Seq<char>, value: Seq<char>) -> Result<Glyph, FontError> {
    if key == "id"@ {
        match number(value, 0, u32::MAX as int) {
            Some(n) => Ok(Glyph { id: n as u32, ..glyph }),
            None => Err(FontError::InvalidNumber),
        }
    } else if key == "x"@ {
        match number(value, 0, u16::MAX as int) {
            Some(n) => Ok(Glyph { x: n as u16, ..glyph }),
            None => Err(FontError::InvalidNumber),
        }
    } else if key == "y"@ {
        match number(value, 0, u16::MAX as int) {
            Some(n) => Ok(Glyph { y: n as u16, ..glyph }),
            None => Err(FontError::InvalidNumber),
        }
    } else if key == "width"@ {
        match number(value, 0, u16::MAX as int) {
            Some(n) => Ok(Glyph { width: n as u16, ..glyph }),
            None => Err(FontError::InvalidNumber),
        }
    } else if key == "height"@ {
        match number(value, 0, u16::MAX as int) {
            Some(n) => Ok(Glyph { height: n as u16, ..glyph }),
            None => Err(FontError::InvalidNumber),
        }
    } else if key == "xoffset"@ {
        match number(value, i16::MIN as int, i16::MAX as int) {
            Some(n) => Ok(Glyph { x_offset: n as i16, ..glyph }),
            None => Err(FontError::InvalidNumber),
        }
    } else if key == "yoffset"@ {
        match number(value, i16::MIN as int, i16::MAX as int) {
            Some(n) => Ok(Glyph { y_offset: n as i16, ..glyph }),
            None => Err(FontError::InvalidNumber),
        }
    } else if key == "xadvance"@ {
        match number(value, 0, u16::MAX as int) {
            Some(n) => Ok(Glyph { x_advance: n as u16, ..glyph }),
            None => Err(FontError::InvalidNumber),
        }
    } else {
        Ok(glyph)
    }
}

/// `glyph` with the fields set that the words from `from` to `end` name,
/// word by word. Where two words name the same field, the later one counts.
pub open spec fn glyph_of_words(text: Seq<char>, from: int, end: int, glyph: Glyph) -> Result<Glyph, FontError>
    decreases end - from,
    via glyph_of_words_decreases
{
    let start = word_start(text, from, end);
    if start >= end {
        Ok(glyph)
    } else {
        let stop = word_end(text, start, end);
        match field(text, start, stop) {
            None => Err(FontError::MissingValue),
            Some((key, value)) => match with_field(glyph, key, value) {
                Err(e) => Err(e),
                Ok(next) => glyph_of_words(text, stop, end, next),
            },
        }
    }
}

#[via_fn]
proof fn glyph_of_words_decreases(text: Seq<char>, from: int, end: int, glyph: Glyph) {
    if from <= end {
        let start = word_start(text, from, end);
        lemma_first_where(text, from, end, Stop::Word);
        if start < end {
            lemma_first_where(text, start, end, Stop::Space);
        }
    }
}

/// `glyphs` with the glyph added that the line from `from` to `end`
/// describes, if it describes one. Where a glyph of the same id is there
/// already, the new one takes its place.
pub open spec fn with_line(text: Seq<char>, from: int, end: int, glyphs: Map<u32, Glyph>) -> Result<
    Map<u32, Glyph>,
    FontError,
> {
    let start = word_start(text, from, end);
    if start >= end {
        Err(FontError::EmptyLine)
    } else {
        let stop = word_end(text, start, end);
        if text.subrange(start, stop) == "char"@ {
            match glyph_of_words(text, stop, end, blank_glyph()) {
                Err(e) => Err(e),
                Ok(glyph) => Ok(glyphs.insert(glyph.id, glyph)),
            }
        } else {
            Ok(glyphs)
        }
    }
}

/// `glyphs` with the glyphs added that the lines from position `from` on
/// describe, line by line. A line ends at a line feed or at the end of the
/// text; behind a last line feed no further line begins.
pub open spec fn glyphs_from(text: Seq<char>, from: int, glyphs: Map<u32, Glyph>) -> Result<
    Map<u32, Glyph>,
    FontError,
>
    decreases text.len() - from,
    via glyphs_from_decreases
{
    if from >= text.len() {
        Ok(glyphs)
    } else {
        let end = line_end(text, from);
        match with_line(text, from, end, glyphs) {
            Err(e) => Err(e),
            Ok(next) => if end >= text.len() {
                Ok(next)
            } else {
                glyphs_from(text, end + 1, next)
            },
        }
    }
}

#[via_fn]
proof fn glyphs_from_decreases(text: Seq<char>, from: int, glyphs: Map<u32, Glyph>) {
    if from < text.len() {
        lemma_first_where(text, from, text.len() as int, Stop::Mark('\n'));
    }
}

/// The glyphs that the font file `text` describes, by id.
pub open spec fn font(text: Seq<char>) -> Result<Map<u32, Glyph>, FontError> {
    glyphs_from(text, 0, Map::empty())
}

fn set_field(glyph: Glyph, text: &[char], from: usize, equals: usize, open: usize, close: usize) -> (r: Result<
    Glyph,
    FontError,
>)
    requires
        from <= equals <= open <= close <= text@.len(),
    ensures
        r == with_field(
            glyph,
            text@.subrange(from as int, equals as int),
            text@.subrange(open as int, close as int),
        ),
{
    if reads(text, from, equals, "id") {
        match read_number(text, open, close, 0, 4294967295) {
            Some(n) => Ok(Glyph { id: n as u32, ..glyph }),
            None => Err(FontError::InvalidNumber),
        }
    } else if reads(text, from, equals, "x") {
        match read_number(text, open, close, 0, 65535) {
            Some(n) => Ok(Glyph { x: n as u16, ..glyph }),
            None => Err(FontError::InvalidNumber),
        }
    } else if reads(text, from, equals, "y") {
        match read_number(text, open, close, 0, 65535) {
            Some(n) => Ok(Glyph { y: n as u16, ..glyph }),
            None => Err(FontError::InvalidNumber),
        }
    } else if reads(text, from, equals, "width") {
        match read_number(text, open, close, 0, 65535) {
            Some(n) => Ok(Glyph { width: n as u16, ..glyph }),
            None => Err(FontError::InvalidNumber),
        }
    } else if reads(text, from, equals, "height") {
        match read_number(text, open, close, 0, 65535) {
            Some(n) => Ok(Glyph { height: n as u16, ..glyph }),
            None => Err(FontError::InvalidNumber),
        }
    } else if reads(text, from, equals, "xoffset") {
        match read_number(text, open, close, -32768, 32767) {
            Some(n) => Ok(Glyph { x_offset: n as i16, ..glyph }),
            None => Err(FontError::InvalidNumber),
        }
    } else if reads(text, from, equals, "yoffset") {
        match read_number(text, open, close, -32768, 32767) {
            Some(n) => Ok(Glyph { y_offset: n as i16, ..glyph }),
            None => Err(FontError::InvalidNumber),
        }
    } else if reads(text, from, equals, "xadvance") {
        match read_number(text, open, close, 0, 65535) {
            Some(n) => Ok(Glyph { x_advance: n as u16, ..glyph }),
            None => Err(FontError::InvalidNumber),
        }
    } else {
        Ok(glyph)
    }
}

fn read_glyph(text: &[char], from: usize, end: usize) -> (r: Result<Glyph, FontError>)
    requires
        from <= end <= text@.len(),
    ensures
        r == glyph_of_words(text@, from as int, end as int, blank_glyph()),
{
    let mut glyph = Glyph { id: 0, x: 0, y: 0, width: 0, height: 0, x_offset: 0, y_offset: 0, x_advance: 0 };
    let mut at = from;
    loop
        invariant
            from <= at <= end <= text@.len(),
            glyph_of_words(text@, from as int, end as int, blank_glyph()) == glyph_of_words(
                text@,
                at as int,
                end as int,
                glyph,
            ),
        decreases end - at,
    {
        let start = find_word_start(text, at, end);
        if start >= end {
            return Ok(glyph);
        }
        let stop = find_word_end(text, start, end);
        let equals = find_mark(text, start, stop, '=');
        if equals >= stop {
            return Err(FontError::MissingValue);
        }
        let value_end = find_mark(text, equals + 1, stop, '=');
        let open = skip_marks(text, equals + 1, value_end, '"');
        let close = drop_marks(text, open, value_end, '"');
        match set_field(glyph, text, start, equals, open, close) {
            Err(e) => {
                return Err(e);
            },
            Ok(next) => {
                glyph = next;
            },
        }
        at = stop;
    }
}

impl GlyphData {
    /// The glyph of `character`, which the font must have.
    pub fn get(&self, character: char) -> (glyph: &Glyph)
        requires
            self.map@.contains_key(character as u32),
        ensures
            *glyph == self.map@[character as u32],
    {
        broadcast use vstd::std_specs::hash::group_hash_axioms;

        let found = self.map.get(&(character as u32));
        match found {
            Some(glyph) => glyph,
            None => vstd::pervasive::unreached(),
        }
    }

    /// Reads the glyphs of a font from the text of its font file.
    pub fn from_fnt_file(file_src: &str) -> (r: Result<Self, FontError>)
        ensures
            match r {
                Ok(data) => font(file_src@) == Ok::<Map<u32, Glyph>, FontError>(data.map@),
                Err(e) => font(file_src@) == Err::<Map<u32, Glyph>, FontError>(e),
            },
    {
        broadcast use vstd::std_specs::hash::group_hash_axioms;

        let chars = chars_of(file_src);
        let text = chars.as_slice();
        let mut characters: HashMap<u32, Glyph> = HashMap::new();
        let mut from: usize = 0;
        while from < text.len()
            invariant
                text@ == file_src@,
                font(text@) == glyphs_from(text@, from as int, characters@),
            decreases text@.len() - from,
        {
            let end = find_line_end(text, from);
            let start = find_word_start(text, from, end);
            if start >= end {
                return Err(FontError::EmptyLine);
            }
            let stop = find_word_end(text, start, end);
            if reads(text, start, stop, "char") {
                match read_glyph(text, stop, end) {
                    Err(e) => {
                        return Err(e);
                    },
                    Ok(glyph) => {
                        characters.insert(glyph.id, glyph);
                    },
                }
            }
            if end >= text.len() {
                return Ok(GlyphData { map: characters });
            }
            from = end + 1;
        }
        Ok(GlyphData { map: characters })
    }
}

} // verus!
