//! Substitute glyphs: code points, random draws and the characters they give.

use vstd::prelude::*;
use rand::Rng;
use crate::config::RangeOrCharCodes;
use crate::text::{chars_of, string_of};

verus! {

/// The glyph of the overdrive mask, also shown where a code point names no character.
pub const MASK: char = '_';

/// Code points that are Unicode scalar values: all but the surrogates, up to 0x10FFFF.
pub open spec fn is_scalar_value(code: int) -> bool {
    0 <= code <= 0xD7FF || 0xE000 <= code <= 0x10FFFF
}

/// `char::from_u32` of std gives the character of a code point that is a Unicode
/// scalar value, and `None` for a surrogate or a number above 0x10FFFF.
pub assume_specification[ char::from_u32 ](code: u32) -> (r: Option<char>)
    ensures
        is_scalar_value(code as int) ==> r == Some(code as char),
        !is_scalar_value(code as int) ==> r.is_none(),
;

/// Draws an integer with `gen_range` of the `rand` crate on the thread's generator,
/// over the inclusive range from `min` to `max`. The crate documents a panic on an
/// empty range, which `min <= max` leaves out, and samples inside the range; nothing
/// is claimed about which value comes. The generator itself gives up only where the
/// system has no randomness to seed it with.
#[verifier::external_body]
pub fn random_int(min: i32, max: i32) -> (r: i32)
    requires
        min <= max,
    ensures
        min <= r <= max,
{
    rand::thread_rng().gen_range(min..=max)
}

/// The character that a code stands for: its own where it is a scalar value, the
/// mask where it is not.
pub open spec fn code_glyph(code: int) -> char {
    if is_scalar_value(code) {
        code as char
    } else {
        MASK
    }
}

/// Whether a code is a Unicode scalar value.
pub fn scalar_value(code: i32) -> (r: bool)
    ensures
        r == is_scalar_value(code as int),
{
    (0 <= code && code <= 0xD7FF) || (0xE000 <= code && code <= 0x10FFFF)
}

/// The character of a code, or the mask for a code that names none.
pub fn glyph_of_code(code: i32) -> (c: char)
    ensures
        c == code_glyph(code as int),
{
    if scalar_value(code) {
        match char::from_u32(code as u32) {
            Some(c) => c,
            None => MASK,
        }
    } else {
        MASK
    }
}

impl RangeOrCharCodes {
    /// The lowest draw that picks a code of this source.
    pub open spec fn low(self) -> int {
        match self {
            RangeOrCharCodes::Range(min, _) => min as int,
            RangeOrCharCodes::Codes(_) => 0,
        }
    }

    /// The highest draw that picks a code of this source; below `low` for an empty set.
    pub open spec fn high(self) -> int {
        match self {
            RangeOrCharCodes::Range(_, max) => max as int,
            RangeOrCharCodes::Codes(codes) => codes@.len() - 1,
        }
    }

    /// Every code of a set has an index that fits an `i32`, the type of a draw.
    pub open spec fn indexable(self) -> bool {
        self matches RangeOrCharCodes::Codes(codes) ==> codes@.len() <= i32::MAX
    }

    /// A draw can be made: the range is not reversed, and the set is indexable.
    pub open spec fn drawable(self) -> bool {
        &&& self.indexable()
        &&& self matches RangeOrCharCodes::Range(min, max) ==> min <= max
    }

    /// The code that a draw picks: the draw itself in a range, the code at that index
    /// in a set.
    pub open spec fn picked(self, draw: int) -> int
        recommends
            self.low() <= draw <= self.high(),
    {
        match self {
            RangeOrCharCodes::Range(_, _) => draw,
            RangeOrCharCodes::Codes(codes) => codes@[draw] as int,
        }
    }

    /// The glyphs that this source can give: the glyph of a code it can pick, or the
    /// mask where it has no code at all.
    pub open spec fn can_give(self, c: char) -> bool {
        if self.low() <= self.high() {
            exists|draw: int|
                self.low() <= draw <= self.high() && c == code_glyph(
                    #[trigger] self.picked(draw),
                )
        } else {
            c == MASK
        }
    }

    /// The code that `draw` picks.
    pub fn pick(&self, draw: i32) -> (code: i32)
        requires
            self.low() <= draw <= self.high(),
        ensures
            code == self.picked(draw as int),
    {
        match self {
            RangeOrCharCodes::Range(_, _) => draw,
            RangeOrCharCodes::Codes(codes) => codes[draw as usize],
        }
    }

    /// A code of this source picked at random, or `None` where the set is empty.
    pub fn get_random_value(&self) -> (r: Option<i32>)
        requires
            self.drawable(),
        ensures
            self.low() > self.high() <==> r.is_none(),
            r matches Some(code) ==> exists|draw: int|
                self.low() <= draw <= self.high() && code == #[trigger] self.picked(draw),
    {
        match self {
            RangeOrCharCodes::Range(min, max) => {
                let draw: i32 = random_int(*min, *max);
                assert(draw == self.picked(draw as int));
                Some(draw)
            },
            RangeOrCharCodes::Codes(codes) => {
                if codes.len() == 0 {
                    None
                } else {
                    let draw: i32 = random_int(0, (codes.len() - 1) as i32);
                    let code: i32 = self.pick(draw);
                    Some(code)
                }
            },
        }
    }
}

/// A substitute glyph drawn at random from `range`; every draw is made afresh.
pub fn get_random_char(range: &RangeOrCharCodes) -> (c: char)
    requires
        range.drawable(),
    ensures
        range.can_give(c),
{
    match range.get_random_value() {
        Some(code) => glyph_of_code(code),
        None => MASK,
    }
}

/// Whether a character is white space, as `char::is_whitespace` of std tells it.
pub uninterp spec fn white_space(c: char) -> bool;

/// `char::is_whitespace` of std tells whether the character has the Unicode
/// property White_Space; the answer depends on the character alone.
pub assume_specification[ char::is_whitespace ](c: char) -> (r: bool)
    ensures
        r == white_space(c),
;

/// The lowest and the highest code that `draw` puts in place of a character: the
/// printable ASCII characters but the space.
pub const FIRST_PRINTABLE: i32 = 33;

pub const LAST_PRINTABLE: i32 = 126;

/// What takes the place of `c` when a text is scrambled at once: `c` itself where
/// it is white space, else the character of `code`, and `c` again where `code`
/// names none.
pub open spec fn redrawn(c: char, white: bool, code: int) -> char {
    if white || !is_scalar_value(code) {
        c
    } else {
        code as char
    }
}

/// `r` can take the place of `c` when a text is scrambled at once.
pub open spec fn can_redraw(c: char, r: char) -> bool {
    exists|code: int|
        FIRST_PRINTABLE <= code <= LAST_PRINTABLE && r == #[trigger] redrawn(
            c,
            white_space(c),
            code,
        )
}

/// What takes the place of `c`, for a given answer on white space and a given code.
pub fn redraw_char(c: char, white: bool, code: i32) -> (r: char)
    ensures
        r == redrawn(c, white, code as int),
{
    if white || !scalar_value(code) {
        c
    } else {
        match char::from_u32(code as u32) {
            Some(r) => r,
            None => c,
        }
    }
}

/// Scrambles a whole text at once: white space stays, and every other character
/// gives way to a printable ASCII character drawn at random.
pub fn draw(text: &str) -> (out: String)
    ensures
        out@.len() == text@.len(),
        forall|i: int|
            0 <= i < text@.len() ==> can_redraw(text@[i], #[trigger] out@[i]),
{
    let source: Vec<char> = chars_of(text);
    let mut out: Vec<char> = Vec::new();
    let mut i: usize = 0;
    while i < source.len()
        invariant
            i <= source@.len(),
            source@ == text@,
            out@.len() == i,
            forall|k: int|
                0 <= k < i ==> can_redraw(text@[k], #[trigger] out@[k]),
        decreases source.len() - i,
    {
        let c: char = source[i];
        let code: i32 = random_int(FIRST_PRINTABLE, LAST_PRINTABLE);
        let r: char = redraw_char(c, c.is_whitespace(), code);
        assert(r == redrawn(text@[i as int], white_space(text@[i as int]), code as int));
        out.push(r);
        i += 1;
    }
    string_of(&out)
}

} // verus!
