//! Reading lines, words and numbers out of text.
//!
//! Text is a sequence of characters. A position in it is an index, and a
//! stretch of it is given by the index of its first character and the index
//! behind its last.

use vstd::prelude::*;
use vstd::std_specs::iter::IteratorSpec;

verus! {

/// The characters of `text`, one by one.
pub fn chars_of(text: &str) -> (chars: Vec<char>)
    ensures
        chars@ == text@,
{
    broadcast use vstd::string::group_string_axioms;

    let mut chars: Vec<char> = Vec::new();
    let mut rest = text.chars();
    loop
        invariant
            chars@ + rest.remaining() == text@,
            rest.decrease() is Some,
        decreases rest.decrease()->0,
    {
        match rest.next() {
            Some(c) => {
                chars.push(c);
            },
            None => {
                return chars;
            },
        }
    }
}

/// Whether `c` separates words: a space, a tab, a line feed, a form feed or
/// a carriage return.
pub open spec fn is_space(c: char) -> bool {
    c == ' ' || c == '\t' || c == '\n' || c == '\x0C' || c == '\r'
}

/// Whether `c` is a decimal digit.
pub open spec fn is_digit(c: char) -> bool {
    48 <= c as u32 <= 57
}

/// What a search through text stops at.
pub enum Stop {
    /// A character that separates words.
    Space,
    /// A character that does not separate words.
    Word,
    /// The given character.
    Mark(char),
    /// Any character but the given one.
    Other(char),
}

impl Stop {
    /// Whether a search for `self` stops at `c`.
    pub open spec fn at(self, c: char) -> bool {
        match self {
            Stop::Space => is_space(c),
            Stop::Word => !is_space(c),
            Stop::Mark(mark) => c == mark,
            Stop::Other(mark) => c != mark,
        }
    }
}

/// The first position from `from` on, and before `end`, that a search for
/// `stop` stops at, or `end` if there is none.
pub open spec fn first_where(text: Seq<char>, from: int, end: int, stop: Stop) -> int
    decreases end - from,
{
    if from >= end {
        end
    } else if stop.at(text[from]) {
        from
    } else {
        first_where(text, from + 1, end, stop)
    }
}

/// A search ends in range, at a character that it stops at, and passes no
/// such character.
pub proof fn lemma_first_where(text: Seq<char>, from: int, end: int, stop: Stop)
    requires
        from <= end,
    ensures
        from <= first_where(text, from, end, stop) <= end,
        first_where(text, from, end, stop) < end ==> stop.at(text[first_where(text, from, end, stop)]),
        forall|i: int| from <= i < first_where(text, from, end, stop) ==> !stop.at(#[trigger] text[i]),
    decreases end - from,
{
    if from < end && !stop.at(text[from]) {
        lemma_first_where(text, from + 1, end, stop);
    }
}

/// The end of the line that starts at `from`: the position of the next line
/// feed, or the end of the text.
pub open spec fn line_end(text: Seq<char>, from: int) -> int {
    first_where(text, from, text.len() as int, Stop::Mark('\n'))
}

/// The start of the first word from `from` on and before `end`, or `end` if
/// only spaces are left.
pub open spec fn word_start(text: Seq<char>, from: int, end: int) -> int {
    first_where(text, from, end, Stop::Word)
}

/// The end of the word that starts at `from`: the position of the next
/// space, or `end`.
pub open spec fn word_end(text: Seq<char>, from: int, end: int) -> int {
    first_where(text, from, end, Stop::Space)
}

/// The position of the first `mark` from `from` on and before `end`, or
/// `end` if there is none.
pub open spec fn mark_position(text: Seq<char>, from: int, end: int, mark: char) -> int {
    first_where(text, from, end, Stop::Mark(mark))
}

/// The first position from `from` on and before `end` that holds another
/// character than `mark`, or `end`.
pub open spec fn past_marks(text: Seq<char>, from: int, end: int, mark: char) -> int {
    first_where(text, from, end, Stop::Other(mark))
}

/// The position behind the last character that is not `mark` in the stretch
/// from `from` to `end`, or `from` if the stretch holds nothing else.
pub open spec fn before_marks(text: Seq<char>, from: int, end: int, mark: char) -> int
    decreases end - from,
{
    if from >= end {
        from
    } else if text[end - 1] != mark {
        end
    } else {
        before_marks(text, from, end - 1, mark)
    }
}

/// The value of a number written in decimal digits.
pub open spec fn digits_value(digits: Seq<char>) -> nat
    decreases digits.len(),
{
    if digits.len() == 0 {
        0
    } else {
        digits_value(digits.drop_last()) * 10 + (digits.last() as u32 - 48) as nat
    }
}

/// Whether `digits` holds decimal digits only.
pub open spec fn all_digits(digits: Seq<char>) -> bool {
    forall|i: int| 0 <= i < digits.len() ==> is_digit(#[trigger] digits[i])
}

/// The number that `word` stands for if it is a number from `min` to `max`:
/// a sign or none, then one decimal digit or more. A minus sign is taken
/// only where negative numbers are (`min < 0`).
pub open spec fn number(word: Seq<char>, min: int, max: int) -> Option<int> {
    let signed = word.len() > 0 && (word[0] == '+' || (word[0] == '-' && min < 0));
    let digits = if signed {
        word.skip(1)
    } else {
        word
    };
    let value = if word.len() > 0 && word[0] == '-' {
        -(digits_value(digits) as int)
    } else {
        digits_value(digits) as int
    };
    if digits.len() > 0 && all_digits(digits) && min <= value <= max {
        Some(value)
    } else {
        None
    }
}

/// Finds the end of the line that starts at `from`.
pub fn find_line_end(text: &[char], from: usize) -> (end: usize)
    requires
        from <= text@.len(),
    ensures
        end == line_end(text@, from as int),
        from <= end <= text@.len(),
        end < text@.len() ==> text@[end as int] == '\n',
{
    let mut i = from;
    while i < text.len() && text[i] != '\n'
        invariant
            from <= i <= text@.len(),
            line_end(text@, from as int) == line_end(text@, i as int),
        decreases text@.len() - i,
    {
        i = i + 1;
    }
    i
}

/// Finds the start of the first word from `from` on and before `end`.
pub fn find_word_start(text: &[char], from: usize, end: usize) -> (start: usize)
    requires
        from <= end <= text@.len(),
    ensures
        start == word_start(text@, from as int, end as int),
        from <= start <= end,
        start < end ==> !is_space(text@[start as int]),
{
    let mut i = from;
    while i < end && space(text[i])
        invariant
            from <= i <= end <= text@.len(),
            word_start(text@, from as int, end as int) == word_start(text@, i as int, end as int),
        decreases end - i,
    {
        i = i + 1;
    }
    i
}

/// Finds the end of the word that starts at `from`.
pub fn find_word_end(text: &[char], from: usize, end: usize) -> (stop: usize)
    requires
        from <= end <= text@.len(),
    ensures
        stop == word_end(text@, from as int, end as int),
        from <= stop <= end,
        from < end && !is_space(text@[from as int]) ==> from < stop,
{
    let mut i = from;
    while i < end && !space(text[i])
        invariant
            from <= i <= end <= text@.len(),
            word_end(text@, from as int, end as int) == word_end(text@, i as int, end as int),
        decreases end - i,
    {
        i = i + 1;
    }
    i
}

/// Finds the first `mark` from `from` on and before `end`.
pub fn find_mark(text: &[char], from: usize, end: usize, mark: char) -> (at: usize)
    requires
        from <= end <= text@.len(),
    ensures
        at == mark_position(text@, from as int, end as int, mark),
        from <= at <= end,
        at < end ==> text@[at as int] == mark,
{
    let mut i = from;
    while i < end && text[i] != mark
        invariant
            from <= i <= end <= text@.len(),
            mark_position(text@, from as int, end as int, mark) == mark_position(text@, i as int, end as int, mark),
        decreases end - i,
    {
        i = i + 1;
    }
    i
}

/// Finds the first character other than `mark` from `from` on and before
/// `end`.
pub fn skip_marks(text: &[char], from: usize, end: usize, mark: char) -> (at: usize)
    requires
        from <= end <= text@.len(),
    ensures
        at == past_marks(text@, from as int, end as int, mark),
        from <= at <= end,
{
    let mut i = from;
    while i < end && text[i] == mark
        invariant
            from <= i <= end <= text@.len(),
            past_marks(text@, from as int, end as int, mark) == past_marks(text@, i as int, end as int, mark),
        decreases end - i,
    {
        i = i + 1;
    }
    i
}

/// Finds the position behind the last character other than `mark` in the
/// stretch from `from` to `end`.
pub fn drop_marks(text: &[char], from: usize, end: usize, mark: char) -> (at: usize)
    requires
        from <= end <= text@.len(),
    ensures
        at == before_marks(text@, from as int, end as int, mark),
        from <= at <= end,
{
    let mut i = end;
    while i > from && text[i - 1] == mark
        invariant
            from <= i <= end <= text@.len(),
            before_marks(text@, from as int, end as int, mark) == before_marks(text@, from as int, i as int, mark),
        decreases i - from,
    {
        i = i - 1;
    }
    i
}

/// Whether `c` separates words.
pub fn space(c: char) -> (r: bool)
    ensures
        r == is_space(c),
{
    c == ' ' || c == '\t' || c == '\n' || c == '\x0C' || c == '\r'
}

/// Whether the stretch of `text` from `from` to `end` reads `word`.
pub fn reads(text: &[char], from: usize, end: usize, word: &str) -> (r: bool)
    requires
        from <= end <= text@.len(),
    ensures
        r == (text@.subrange(from as int, end as int) == word@),
{
    let length = word.unicode_len();
    if length != end - from {
        return false;
    }
    let mut i: usize = 0;
    while i < length
        invariant
            i <= length,
            length == end - from,
            length == word@.len(),
            from <= end <= text@.len(),
            forall|j: int| 0 <= j < i ==> text@[from + j] == word@[j],
        decreases length - i,
    {
        if text[from + i] != word.get_char(i) {
            assert(text@.subrange(from as int, end as int)[i as int] != word@[i as int]);
            return false;
        }
        i = i + 1;
    }
    assert(text@.subrange(from as int, end as int) =~= word@);
    true
}

/// Reads the stretch of `text` from `from` to `end` as a number from `min`
/// to `max`.
pub fn read_number(text: &[char], from: usize, end: usize, min: i64, max: i64) -> (r: Option<i64>)
    requires
        from <= end <= text@.len(),
        min <= 0 <= max,
        -4294967296 <= min,
        max <= 4294967296,
    ensures
        r == match number(text@.subrange(from as int, end as int), min as int, max as int) {
            Some(value) => Some(value as i64),
            None => None,
        },
{
    let ghost word = text@.subrange(from as int, end as int);
    if from == end {
        return None;
    }
    let first = text[from];
    let negative = first == '-';
    if negative && min == 0 {
        assert(!is_digit(word[0]));
        return None;
    }
    let start = if first == '+' || negative {
        from + 1
    } else {
        from
    };
    let ghost digits = text@.subrange(start as int, end as int);
    assert(digits =~= if word.len() > 0 && (word[0] == '+' || (word[0] == '-' && min < 0)) {
        word.skip(1)
    } else {
        word
    });
    if start == end {
        return None;
    }
    // The largest magnitude that is in range.
    let limit: i64 = if negative {
        -min
    } else {
        max
    };
    let mut value: i64 = 0;
    let mut exceeded = false;
    let mut i = start;
    while i < end
        invariant
            start <= i <= end <= text@.len(),
            start < end,
            digits == text@.subrange(start as int, end as int),
            word == text@.subrange(from as int, end as int),
            digits == if word.len() > 0 && (word[0] == '+' || (word[0] == '-' && min < 0)) {
                word.skip(1)
            } else {
                word
            },
            negative == (word.len() > 0 && word[0] == '-'),
            limit == if negative {
                -(min as int)
            } else {
                max as int
            },
            0 <= limit <= 4294967296,
            all_digits(digits.take(i - start)),
            !exceeded ==> value == digits_value(digits.take(i - start)) && 0 <= value <= limit,
            exceeded ==> digits_value(digits.take(i - start)) > limit,
        decreases end - i,
    {
        let c = text[i];
        let code = c as u32;
        if !(code >= 48 && code <= 57) {
            assert(!is_digit(digits[i - start]));
            return None;
        }
        let digit = (code - 48) as i64;
        proof {
            assert(digits.take(i - start + 1).drop_last() =~= digits.take(i - start));
            assert(digits.take(i - start + 1).last() == c);
            assert forall|j: int| 0 <= j < i - start + 1 implies is_digit(#[trigger] digits.take(i - start + 1)[j]) by {
                if j < i - start {
                    assert(digits.take(i - start)[j] == digits[j]);
                }
            }
        }
        if !exceeded {
            value = value * 10 + digit;
            if value > limit {
                exceeded = true;
            }
        }
        i = i + 1;
    }
    assert(digits.take(i - start) =~= digits);
    if exceeded {
        None
    } else if negative {
        Some(-value)
    } else {
        Some(value)
    }
}

} // verus!
