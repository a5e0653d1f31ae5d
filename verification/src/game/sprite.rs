//! Sprites: frames cut out of a texture, played as named animations, and the
//! text format they are read from.
//!
//! A sprite file is a text of lines. A line whose first word is `F`
//! describes a frame by seven numbers: the corner, the width and the height
//! of its rectangle in the texture, its duration, and its pivot. A line that
//! starts with another word names an animation and gives its first and its
//! last frame:
//!
//! ```text
//! F 0 0 16 16 6 8 16
//! F 16 0 16 16 6 8 16
//! IDLE 0 1
//! ```

use vstd::prelude::*;
use crate::graphics::subtexture::{is_region, Subtexture};
use crate::graphics::texture::Texture;
use crate::rect::{clamp_position, clamp_size, Point, Rect};
use crate::utils::animation::{Animation, Frame};
use crate::utils::text::{
    chars_of, find_line_end, find_word_end, find_word_start, lemma_first_where, line_end, number, read_number, reads,
    word_end, word_start, Stop,
};

verus! {

/// Why a text is no sprite file.
#[derive(Clone, Copy, Debug, PartialEq, Eq, Structural)]
pub enum AtlasError {
    /// A line holds no word.
    EmptyLine,
    /// A line ends before all its numbers are given.
    MissingField,
    /// A word is no number of the range of its field.
    InvalidNumber,
    /// An animation names a frame that the file does not hold, or ends
    /// before it starts.
    FrameOutOfRange,
}

/// What a line says of a frame.
pub struct FrameLine {
    pub rect: Rect,
    pub duration: u32,
    pub pivot: Point,
}

/// What a line says of an animation.
pub struct AnimationLine {
    pub name: Seq<char>,
    pub from: u8,
    pub to: u8,
}

/// What a sprite file says: its frames and its animations, each in the
/// order of the lines.
pub struct AtlasLines {
    pub frames: Seq<FrameLine>,
    pub animations: Seq<AnimationLine>,
}

/// The number from `min` to `max` that the first word from `from` on and
/// before `end` stands for, with the position behind that word.
pub open spec fn next_number(text: Seq<char>, from: int, end: int, min: int, max: int) -> Result<
    (int, int),
    AtlasError,
> {
    let start = word_start(text, from, end);
    if start >= end {
        Err(AtlasError::MissingField)
    } else {
        let stop = word_end(text, start, end);
        match number(text.subrange(start, stop), min, max) {
            None => Err(AtlasError::InvalidNumber),
            Some(value) => Ok((value, stop)),
        }
    }
}

/// The numbers that the first `count` words from `from` on and before `end`
/// stand for, number `i` within the range `ranges[i]`.
pub open spec fn next_numbers(text: Seq<char>, from: int, end: int, ranges: Seq<(int, int)>) -> Result<
    Seq<int>,
    AtlasError,
>
    decreases ranges.len(),
{
    if ranges.len() == 0 {
        Ok(Seq::empty())
    } else {
        match next_number(text, from, end, ranges[0].0, ranges[0].1) {
            Err(e) => Err(e),
            Ok((value, stop)) => match next_numbers(text, stop, end, ranges.skip(1)) {
                Err(e) => Err(e),
                Ok(rest) => Ok(seq![value] + rest),
            },
        }
    }
}

/// The ranges of the seven numbers of a frame: corner, width, height,
/// duration, pivot.
pub open spec fn frame_ranges() -> Seq<(int, int)> {
    seq![
        (i32::MIN as int, i32::MAX as int),
        (i32::MIN as int, i32::MAX as int),
        (0int, u32::MAX as int),
        (0int, u32::MAX as int),
        (0int, u32::MAX as int),
        (i32::MIN as int, i32::MAX as int),
        (i32::MIN as int, i32::MAX as int),
    ]
}

/// The ranges of the two numbers of an animation: first and last frame.
pub open spec fn animation_ranges() -> Seq<(int, int)> {
    seq![(0int, u8::MAX as int), (0int, u8::MAX as int)]
}

/// The frame that seven numbers describe. Its rectangle and its pivot keep
/// to the range of rectangles.
pub open spec fn frame_of(numbers: Seq<int>) -> FrameLine {
    FrameLine {
        rect: Rect {
            x: clamp_position(numbers[0] as i32),
            y: clamp_position(numbers[1] as i32),
            w: clamp_size(numbers[2] as u32),
            h: clamp_size(numbers[3] as u32),
        },
        duration: numbers[4] as u32,
        pivot: Point { x: clamp_position(numbers[5] as i32), y: clamp_position(numbers[6] as i32) },
    }
}

/// `lines` with what the line from `from` to `end` says added behind.
pub open spec fn with_line(text: Seq<char>, from: int, end: int, lines: AtlasLines) -> Result<
    AtlasLines,
    AtlasError,
> {
    let start = word_start(text, from, end);
    if start >= end {
        Err(AtlasError::EmptyLine)
    } else {
        let stop = word_end(text, start, end);
        if text.subrange(start, stop) == "F"@ {
            match next_numbers(text, stop, end, frame_ranges()) {
                Err(e) => Err(e),
                Ok(numbers) => Ok(AtlasLines { frames: lines.frames.push(frame_of(numbers)), ..lines }),
            }
        } else {
            match next_numbers(text, stop, end, animation_ranges()) {
                Err(e) => Err(e),
                Ok(numbers) => Ok(
                    AtlasLines {
                        animations: lines.animations.push(
                            AnimationLine {
                                name: text.subrange(start, stop),
                                from: numbers[0] as u8,
                                to: numbers[1] as u8,
                            },
                        ),
                        ..lines
                    },
                ),
            }
        }
    }
}

/// `lines` with what the lines from position `from` on say added behind,
/// line by line. A line ends at a line feed or at the end of the text;
/// behind a last line feed no further line begins.
pub open spec fn lines_from(text: Seq<char>, from: int, lines: AtlasLines) -> Result<AtlasLines, AtlasError>
    decreases text.len() - from,
    via lines_from_decreases
{
    if from >= text.len() {
        Ok(lines)
    } else {
        let end = line_end(text, from);
        match with_line(text, from, end, lines) {
            Err(e) => Err(e),
            Ok(next) => if end >= text.len() {
                Ok(next)
            } else {
                lines_from(text, end + 1, next)
            },
        }
    }
}

#[via_fn]
proof fn lines_from_decreases(text: Seq<char>, from: int, lines: AtlasLines) {
    if from < text.len() {
        lemma_first_where(text, from, text.len() as int, Stop::Mark('\n'));
    }
}

/// What the sprite file `text` says.
pub open spec fn atlas(text: Seq<char>) -> Result<AtlasLines, AtlasError> {
    lines_from(text, 0, AtlasLines { frames: Seq::empty(), animations: Seq::empty() })
}

/// Whether `frame` is the frame that `line` describes, cut out of `texture`,
/// with the texture coordinates that `normalize` gives its rectangle.
pub open spec fn is_frame<N: Fn(i64, u32) -> u32>(
    normalize: &N,
    texture: Texture,
    line: FrameLine,
    frame: Frame,
) -> bool {
    &&& frame.subtexture.texture == texture
    &&& frame.subtexture.rect == line.rect
    &&& is_region(normalize, frame.subtexture)
    &&& frame.duration == line.duration
    &&& frame.pivot == line.pivot
}

/// Whether `animation` is the animation that `line` describes.
pub open spec fn is_animation(line: AnimationLine, animation: Animation) -> bool {
    &&& animation.name@ == line.name
    &&& animation.from == line.from
    &&& animation.to == line.to
}

/// Whether `frames` and `animations` are what `lines` describes, entry by
/// entry.
pub open spec fn holds<N: Fn(i64, u32) -> u32>(
    normalize: &N,
    texture: Texture,
    lines: AtlasLines,
    frames: Seq<Frame>,
    animations: Seq<Animation>,
) -> bool {
    &&& frames.len() == lines.frames.len()
    &&& forall|i: int| 0 <= i < frames.len() ==> is_frame(normalize, texture, lines.frames[i], #[trigger] frames[i])
    &&& animations.len() == lines.animations.len()
    &&& forall|i: int|
        0 <= i < animations.len() ==> is_animation(lines.animations[i], #[trigger] animations[i])
}

/// The frames and animations of a sprite as its file gives them.
pub struct AtlasParser {
    pub frames: Vec<Frame>,
    /// In the order of the file. Where two animations have the same name,
    /// the later one counts.
    pub animations: Vec<Animation>,
}

fn read_next_number(text: &[char], from: usize, end: usize, min: i64, max: i64) -> (r: Result<
    (i64, usize),
    AtlasError,
>)
    requires
        from <= end <= text@.len(),
        min <= 0 <= max,
        -4294967296 <= min,
        max <= 4294967296,
    ensures
        match r {
            Ok((value, stop)) => next_number(text@, from as int, end as int, min as int, max as int) == Ok::<
                (int, int),
                AtlasError,
            >((value as int, stop as int)) && from <= stop <= end,
            Err(e) => next_number(text@, from as int, end as int, min as int, max as int) == Err::<
                (int, int),
                AtlasError,
            >(e),
        },
{
    let start = find_word_start(text, from, end);
    if start >= end {
        return Err(AtlasError::MissingField);
    }
    let stop = find_word_end(text, start, end);
    match read_number(text, start, stop, min, max) {
        None => Err(AtlasError::InvalidNumber),
        Some(value) => Ok((value, stop)),
    }
}

fn read_frame<N: Fn(i64, u32) -> u32>(text: &[char], from: usize, end: usize, texture: Texture, normalize: &N) -> (r:
    Result<Frame, AtlasError>)
    requires
        from <= end <= text@.len(),
        forall|pixel: i64, side: u32| normalize.requires((pixel, side)),
    ensures
        match r {
            Ok(frame) => match next_numbers(text@, from as int, end as int, frame_ranges()) {
                Ok(numbers) => is_frame(normalize, texture, frame_of(numbers), frame),
                Err(_) => false,
            },
            Err(e) => next_numbers(text@, from as int, end as int, frame_ranges()) == Err::<Seq<int>, AtlasError>(e),
        },
{
    reveal_with_fuel(next_numbers, 8);
    proof {
        let r = frame_ranges();
        assert(r.skip(1).skip(1).skip(1).skip(1).skip(1).skip(1).skip(1).len() == 0);
        assert(r.skip(1)[0] == r[1]);
        assert(r.skip(1).skip(1)[0] == r[2]);
        assert(r.skip(1).skip(1).skip(1)[0] == r[3]);
        assert(r.skip(1).skip(1).skip(1).skip(1)[0] == r[4]);
        assert(r.skip(1).skip(1).skip(1).skip(1).skip(1)[0] == r[5]);
        assert(r.skip(1).skip(1).skip(1).skip(1).skip(1).skip(1)[0] == r[6]);
    }
    let (x, at) = match read_next_number(text, from, end, -2147483648, 2147483647) {
        Ok(found) => found,
        Err(e) => {
            return Err(e);
        },
    };
    let (y, at) = match read_next_number(text, at, end, -2147483648, 2147483647) {
        Ok(found) => found,
        Err(e) => {
            return Err(e);
        },
    };
    let (w, at) = match read_next_number(text, at, end, 0, 4294967295) {
        Ok(found) => found,
        Err(e) => {
            return Err(e);
        },
    };
    let (h, at) = match read_next_number(text, at, end, 0, 4294967295) {
        Ok(found) => found,
        Err(e) => {
            return Err(e);
        },
    };
    let (duration, at) = match read_next_number(text, at, end, 0, 4294967295) {
        Ok(found) => found,
        Err(e) => {
            return Err(e);
        },
    };
    let (pivot_x, at) = match read_next_number(text, at, end, -2147483648, 2147483647) {
        Ok(found) => found,
        Err(e) => {
            return Err(e);
        },
    };
    let (pivot_y, _) = match read_next_number(text, at, end, -2147483648, 2147483647) {
        Ok(found) => found,
        Err(e) => {
            return Err(e);
        },
    };
    let rect = Rect::new(x as i32, y as i32, w as u32, h as u32);
    Ok(
        Frame {
            subtexture: Subtexture::new(texture, rect, normalize),
            duration: duration as u32,
            pivot: Point::new(pivot_x as i32, pivot_y as i32),
        },
    )
}

fn read_animation(text: &[char], from: usize, end: usize) -> (r: Result<(u8, u8), AtlasError>)
    requires
        from <= end <= text@.len(),
    ensures
        match r {
            Ok((first, last)) => match next_numbers(text@, from as int, end as int, animation_ranges()) {
                Ok(numbers) => numbers[0] == first && numbers[1] == last,
                Err(_) => false,
            },
            Err(e) => next_numbers(text@, from as int, end as int, animation_ranges()) == Err::<
                Seq<int>,
                AtlasError,
            >(e),
        },
{
    reveal_with_fuel(next_numbers, 3);
    proof {
        let r = animation_ranges();
        assert(r.skip(1).skip(1).len() == 0);
        assert(r.skip(1)[0] == r[1]);
    }
    let (first, at) = match read_next_number(text, from, end, 0, 255) {
        Ok(found) => found,
        Err(e) => {
            return Err(e);
        },
    };
    let (last, _) = match read_next_number(text, at, end, 0, 255) {
        Ok(found) => found,
        Err(e) => {
            return Err(e);
        },
    };
    Ok((first as u8, last as u8))
}

impl AtlasParser {
    /// Reads the frames and animations of a sprite from the text of its
    /// file. The frames are cut out of `texture`.
    pub fn texture_and_source<N: Fn(i64, u32) -> u32>(texture: Texture, source: &str, normalize: &N) -> (r: Result<
        Self,
        AtlasError,
    >)
        requires
            forall|pixel: i64, side: u32| normalize.requires((pixel, side)),
        ensures
            match r {
                Ok(parser) => match atlas(source@) {
                    Ok(lines) => holds(normalize, texture, lines, parser.frames@, parser.animations@),
                    Err(_) => false,
                },
                Err(e) => atlas(source@) == Err::<AtlasLines, AtlasError>(e),
            },
    {
        let chars = chars_of(source);
        let text = chars.as_slice();
        let mut frames: Vec<Frame> = Vec::new();
        let mut animations: Vec<Animation> = Vec::new();
        let ghost mut lines = AtlasLines { frames: Seq::empty(), animations: Seq::empty() };
        let mut from: usize = 0;
        while from < text.len()
            invariant
                text@ == source@,
                atlas(text@) == lines_from(text@, from as int, lines),
                holds(normalize, texture, lines, frames@, animations@),
                forall|pixel: i64, side: u32| normalize.requires((pixel, side)),
            decreases text@.len() - from,
        {
            let end = find_line_end(text, from);
            let start = find_word_start(text, from, end);
            if start >= end {
                return Err(AtlasError::EmptyLine);
            }
            let stop = find_word_end(text, start, end);
            if reads(text, start, stop, "F") {
                match read_frame(text, stop, end, texture, normalize) {
                    Err(e) => {
                        return Err(e);
                    },
                    Ok(frame) => {
                        proof {
                            let numbers = next_numbers(text@, stop as int, end as int, frame_ranges())->Ok_0;
                            lines = AtlasLines { frames: lines.frames.push(frame_of(numbers)), ..lines };
                        }
                        frames.push(frame);
                    },
                }
            } else {
                match read_animation(text, stop, end) {
                    Err(e) => {
                        return Err(e);
                    },
                    Ok((first, last)) => {
                        let name = source.substring_char(start, stop).to_owned();
                        proof {
                            lines = AtlasLines {
                                animations: lines.animations.push(
                                    AnimationLine { name: text@.subrange(start as int, stop as int), from: first, to: last },
                                ),
                                ..lines
                            };
                        }
                        animations.push(Animation { name, from: first, to: last });
                    },
                }
            }
            if end >= text.len() {
                return Ok(AtlasParser { frames, animations });
            }
            from = end + 1;
        }
        Ok(AtlasParser { frames, animations })
    }
}

/// The animation that `name` stands for among `animations`: the last one of
/// that name.
pub open spec fn lookup(animations: Seq<AnimationLine>, name: Seq<char>) -> Option<AnimationLine>
    decreases animations.len(),
{
    if animations.len() == 0 {
        None
    } else if animations.last().name == name {
        Some(animations.last())
    } else {
        lookup(animations.drop_last(), name)
    }
}

/// Whether every animation runs over frames that are there: it starts no
/// later than it ends, and it ends within the `frames` frames.
pub open spec fn in_range(animations: Seq<AnimationLine>, frames: nat) -> bool {
    forall|i: int| 0 <= i < animations.len() ==> (#[trigger] animations[i]).from <= animations[i].to < frames
}

/// What a sprite holds.
pub struct SpriteView {
    pub frames: Seq<Frame>,
    pub animations: Seq<AnimationLine>,
    /// The frame that is shown.
    pub frame_index: u8,
    /// Whether the animation has been played to its end at least once.
    pub looping: bool,
    /// Updates that the frame still shows for.
    pub timer: u32,
    /// The animation that is played.
    pub playing: Option<AnimationLine>,
    pub flip_x: bool,
    pub flip_y: bool,
}

impl SpriteView {
    /// The invariant of a sprite: its animations run over frames that are
    /// there, and the frame that is shown belongs to the animation that is
    /// played.
    pub open spec fn wf(self) -> bool {
        &&& in_range(self.animations, self.frames.len())
        &&& self.playing matches Some(animation) ==> {
            &&& animation.from <= self.frame_index <= animation.to
            &&& animation.to < self.frames.len()
        }
    }

    /// The sprite after it was told to play `name`. An animation that is
    /// played already goes on; another one starts at its first frame.
    pub open spec fn play(self, name: Seq<char>) -> SpriteView
        recommends
            lookup(self.animations, name).is_some(),
    {
        if self.playing.is_some() && self.playing.unwrap().name == name {
            self
        } else {
            let animation = lookup(self.animations, name).unwrap();
            SpriteView {
                frame_index: animation.from,
                looping: false,
                timer: self.frames[animation.from as int].duration,
                playing: Some(animation),
                ..self
            }
        }
    }

    /// The sprite one update later. A frame shows until its timer has run
    /// down; then the next frame is shown, and behind the last frame of the
    /// animation the first one again.
    pub open spec fn update(self) -> SpriteView {
        match self.playing {
            None => self,
            Some(animation) => if self.timer > 0 {
                SpriteView { timer: (self.timer - 1) as u32, ..self }
            } else {
                let wraps = self.frame_index >= animation.to;
                let next = if wraps {
                    animation.from
                } else {
                    (self.frame_index + 1) as u8
                };
                SpriteView {
                    frame_index: next,
                    looping: self.looping || wraps,
                    timer: self.frames[next as int].duration,
                    ..self
                }
            },
        }
    }
}

/// An animated image.
pub struct Sprite {
    frames: Vec<Frame>,
    animations: Vec<Animation>,
    frame_index: u8,
    looping: bool,
    timer: u32,
    /// Position of the animation that is played among `animations`.
    playing: Option<usize>,
    flip_x: bool,
    flip_y: bool,
}

/// What `animation` says, as a line of a sprite file says it.
pub open spec fn line_of(animation: Animation) -> AnimationLine {
    AnimationLine { name: animation.name@, from: animation.from, to: animation.to }
}

/// What `animations` say, entry by entry.
pub open spec fn lines_of(animations: Seq<Animation>) -> Seq<AnimationLine> {
    Seq::new(animations.len(), |i: int| line_of(animations[i]))
}

/// Whether two texts hold the same characters.
fn same_text(a: &str, b: &str) -> (same: bool)
    ensures
        same == (a@ == b@),
{
    let length = a.unicode_len();
    if length != b.unicode_len() {
        return false;
    }
    let mut i: usize = 0;
    while i < length
        invariant
            i <= length,
            length == a@.len(),
            length == b@.len(),
            forall|j: int| 0 <= j < i ==> a@[j] == b@[j],
        decreases length - i,
    {
        if a.get_char(i) != b.get_char(i) {
            return false;
        }
        i = i + 1;
    }
    assert(a@ =~= b@);
    true
}

impl Sprite {
    pub closed spec fn view(&self) -> SpriteView {
        SpriteView {
            frames: self.frames@,
            animations: lines_of(self.animations@),
            frame_index: self.frame_index,
            looping: self.looping,
            timer: self.timer,
            playing: match self.playing {
                Some(i) => Some(line_of(self.animations@[i as int])),
                None => None,
            },
            flip_x: self.flip_x,
            flip_y: self.flip_y,
        }
    }

    /// Whether the sprite meets its invariant. Every sprite that this
    /// module hands out does.
    pub closed spec fn wf(&self) -> bool {
        &&& self@.wf()
        &&& self.playing matches Some(i) ==> i < self.animations@.len()
    }

    /// Reads a sprite from the text of its file. The frames are cut out of
    /// `texture`. Nothing is played yet.
    ///
    /// Fails if the text is no sprite file, or if an animation of it names
    /// frames that the file does not hold.
    pub fn from_atlas<N: Fn(i64, u32) -> u32>(texture: Texture, source: &str, normalize: &N) -> (r: Result<
        Self,
        AtlasError,
    >)
        requires
            forall|pixel: i64, side: u32| normalize.requires((pixel, side)),
        ensures
            match r {
                Ok(sprite) => match atlas(source@) {
                    Ok(lines) => {
                        &&& sprite.wf()
                        &&& sprite@.animations == lines.animations
                        &&& sprite@.frames.len() == lines.frames.len()
                        &&& forall|i: int|
                            0 <= i < lines.frames.len() ==> is_frame(
                                normalize,
                                texture,
                                lines.frames[i],
                                #[trigger] sprite@.frames[i],
                            )
                        &&& sprite@.frame_index == 0
                        &&& sprite@.timer == 0
                        &&& !sprite@.looping
                        &&& sprite@.playing.is_none()
                        &&& !sprite@.flip_x
                        &&& !sprite@.flip_y
                    },
                    Err(_) => false,
                },
                Err(e) => match atlas(source@) {
                    Ok(lines) => e == AtlasError::FrameOutOfRange && !in_range(
                        lines.animations,
                        lines.frames.len(),
                    ),
                    Err(parse) => e == parse,
                },
            },
    {
        let parser = match AtlasParser::texture_and_source(texture, source, normalize) {
            Ok(parser) => parser,
            Err(e) => {
                return Err(e);
            },
        };
        let ghost lines = atlas(source@)->Ok_0;
        assert(lines_of(parser.animations@) =~= lines.animations);
        let mut i: usize = 0;
        while i < parser.animations.len()
            invariant
                i <= parser.animations@.len(),
                atlas(source@) == Ok::<AtlasLines, AtlasError>(lines),
                lines_of(parser.animations@) == lines.animations,
                parser.frames@.len() == lines.frames.len(),
                forall|j: int| 0 <= j < i ==> (#[trigger] lines.animations[j]).from <= lines.animations[j].to
                    < lines.frames.len(),
            decreases parser.animations@.len() - i,
        {
            let animation = &parser.animations[i];
            assert(lines.animations[i as int] == line_of(parser.animations@[i as int]));
            if animation.from > animation.to || animation.to as usize >= parser.frames.len() {
                assert(!(lines.animations[i as int].from <= lines.animations[i as int].to < lines.frames.len()));
                return Err(AtlasError::FrameOutOfRange);
            }
            i = i + 1;
        }
        Ok(
            Sprite {
                frames: parser.frames,
                animations: parser.animations,
                frame_index: 0,
                looping: false,
                timer: 0,
                playing: None,
                flip_x: false,
                flip_y: false,
            },
        )
    }

    /// Position among the animations of the one that `name` stands for.
    fn find(&self, name: &str) -> (found: Option<usize>)
        ensures
            match found {
                Some(i) => i < self.animations@.len() && lookup(self@.animations, name@) == Some(
                    line_of(self.animations@[i as int]),
                ),
                None => lookup(self@.animations, name@).is_none(),
            },
    {
        let ghost all = self@.animations;
        let mut i = self.animations.len();
        assert(all.take(i as int) =~= all);
        while i > 0
            invariant
                i <= self.animations@.len(),
                all == lines_of(self.animations@),
                lookup(all, name@) == lookup(all.take(i as int), name@),
            decreases i,
        {
            assert(all.take(i as int).drop_last() =~= all.take(i - 1));
            assert(all.take(i as int).last() == line_of(self.animations@[i - 1]));
            if same_text(self.animations[i - 1].name.as_str(), name) {
                return Some(i - 1);
            }
            i = i - 1;
        }
        assert(all.take(0) =~= Seq::<AnimationLine>::empty());
        None
    }

    /// Whether the sprite has an animation of the name `name`.
    pub fn has_animation(&self, name: &str) -> (r: bool)
        ensures
            r == lookup(self@.animations, name@).is_some(),
    {
        self.find(name).is_some()
    }

    /// Plays the animation `name`, which the sprite must have. If it is
    /// played already, it goes on; else it starts at its first frame.
    pub fn play(&mut self, animation_name: &str)
        requires
            old(self).wf(),
            lookup(old(self)@.animations, animation_name@).is_some(),
        ensures
            final(self).wf(),
            final(self)@ == old(self)@.play(animation_name@),
    {
        match self.playing {
            Some(current) => {
                if same_text(self.animations[current].name.as_str(), animation_name) {
                    return ;
                }
            },
            None => {},
        }
        let found = self.find(animation_name);
        let position = match found {
            Some(position) => position,
            None => vstd::pervasive::unreached(),
        };
        assert(self@.animations[position as int] == line_of(self.animations@[position as int]));
        let first = self.animations[position].from;
        self.frame_index = first;
        self.looping = false;
        self.timer = self.frames[first as usize].duration;
        self.playing = Some(position);
    }

    /// Moves the animation on by one update.
    pub fn update(&mut self)
        requires
            old(self).wf(),
        ensures
            final(self).wf(),
            final(self)@ == old(self)@.update(),
    {
        let position = match self.playing {
            Some(position) => position,
            None => {
                return ;
            },
        };
        if self.timer > 0 {
            self.timer = self.timer - 1;
            return ;
        }
        let first = self.animations[position].from;
        let last = self.animations[position].to;
        if self.frame_index >= last {
            self.frame_index = first;
            self.looping = true;
        } else {
            self.frame_index = self.frame_index + 1;
        }
        self.timer = self.frames[self.frame_index as usize].duration;
    }

    /// The region of the texture that shows the sprite now, mirrored as the
    /// sprite is, and the pivot of the frame; `None` while nothing is played.
    pub fn render(&self) -> (shown: Option<(Subtexture, Point)>)
        requires
            self.wf(),
        ensures
            match shown {
                Some((subtexture, pivot)) => {
                    let frame = self@.frames[self@.frame_index as int];
                    &&& self@.playing.is_some()
                    &&& subtexture.texture == frame.subtexture.texture
                    &&& subtexture.rect == frame.subtexture.rect
                    &&& subtexture.uvs == frame.subtexture.uvs.flipped(self@.flip_x, self@.flip_y)
                    &&& pivot == frame.pivot
                },
                None => self@.playing.is_none(),
            },
    {
        if self.playing.is_none() {
            return None;
        }
        let frame = &self.frames[self.frame_index as usize];
        let mut subtexture = frame.subtexture;
        subtexture.flip(self.flip_x, self.flip_y);
        Some((subtexture, frame.pivot))
    }

    /// Sets along which axes the sprite is shown mirrored.
    pub fn set_flip(&mut self, flip_x: bool, flip_y: bool)
        ensures
            final(self)@ == (SpriteView { flip_x, flip_y, ..old(self)@ }),
            old(self).wf() ==> final(self).wf(),
    {
        self.flip_x = flip_x;
        self.flip_y = flip_y;
    }

    /// The frame that is shown.
    pub fn frame_index(&self) -> (index: u8)
        ensures
            index == self@.frame_index,
    {
        self.frame_index
    }

    /// Whether the animation has been played to its end at least once.
    pub fn looping(&self) -> (looping: bool)
        ensures
            looping == self@.looping,
    {
        self.looping
    }

    /// Updates that the frame still shows for.
    pub fn timer(&self) -> (timer: u32)
        ensures
            timer == self@.timer,
    {
        self.timer
    }

    /// The animation that is played.
    pub fn playing(&self) -> (animation: Option<&Animation>)
        requires
            self.wf(),
        ensures
            match animation {
                Some(animation) => self@.playing == Some(line_of(*animation)),
                None => self@.playing.is_none(),
            },
    {
        match self.playing {
            Some(position) => Some(&self.animations[position]),
            None => None,
        }
    }
}

} // verus!
