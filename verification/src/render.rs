//! The frame renderer: what each position shows, and what a frame leaves of it.

use vstd::prelude::*;
use crate::config::RangeOrCharCodes;
use crate::control::ScrambleControl;
use crate::glyph::{get_random_char, MASK};
use crate::scheduler::is_ignored;

verus! {

/// What is shown for a position that has nothing to show.
pub const BLANK: char = ' ';

/// The position holds a character of the text that is never scrambled.
pub open spec fn pinned(i: int, text: Seq<char>, ignore: Seq<char>) -> bool {
    0 <= i < text.len() && ignore.contains(text[i])
}

/// The position shows a random glyph: it counts down, its character may be
/// scrambled, and no mask is in force.
pub open spec fn uses_glyph(
    entry: ScrambleControl,
    i: int,
    text: Seq<char>,
    ignore: Seq<char>,
    overdrive: bool,
) -> bool {
    entry.is_counting() && !pinned(i, text, ignore) && !overdrive
}

/// What a position shows in a frame, `glyph` being the random glyph at hand.
///
/// A running countdown shows the text's own character where that one is never
/// scrambled, else the mask under overdrive, else the glyph. A countdown at zero
/// shows the character of the text. A character is shown as it is at or after the
/// wave and beyond the text; behind the wave it is shown only where the text still
/// has it. Everything else is blank.
pub open spec fn shown(
    entry: ScrambleControl,
    i: int,
    text: Seq<char>,
    index: int,
    ignore: Seq<char>,
    overdrive: bool,
    glyph: char,
) -> char {
    match entry {
        ScrambleControl::Number(n) => {
            if n > 0 {
                if pinned(i, text, ignore) {
                    text[i]
                } else if overdrive {
                    MASK
                } else {
                    glyph
                }
            } else if n == 0 && 0 <= i < text.len() {
                text[i]
            } else {
                BLANK
            }
        },
        ScrambleControl::Char(c) => {
            if i >= text.len() || i >= index || c == text[i] {
                c
            } else {
                BLANK
            }
        },
        ScrambleControl::Null => BLANK,
    }
}

/// What a frame leaves of a position: a running countdown loses one frame at or
/// before the wave, a countdown at zero turns into the character of the text, and
/// everything else stays.
pub open spec fn settled(entry: ScrambleControl, i: int, text: Seq<char>, index: int)
    -> ScrambleControl {
    match entry {
        ScrambleControl::Number(n) => {
            if n > 0 {
                if i <= index {
                    ScrambleControl::Number((n - 1) as i32)
                } else {
                    entry
                }
            } else if n == 0 && 0 <= i < text.len() {
                ScrambleControl::Char(text[i])
            } else {
                entry
            }
        },
        _ => entry,
    }
}

/// The table that a frame leaves.
pub open spec fn settled_table(table: Seq<ScrambleControl>, text: Seq<char>, index: int) -> Seq<
    ScrambleControl,
> {
    Seq::new(table.len(), |i: int| settled(table[i], i, text, index))
}

/// A frame can show `c` at a position: a glyph of the source where the position
/// shows a random glyph, and else the one character that `shown` gives.
pub open spec fn can_show(
    entry: ScrambleControl,
    i: int,
    text: Seq<char>,
    index: int,
    ignore: Seq<char>,
    range: RangeOrCharCodes,
    overdrive: bool,
    c: char,
) -> bool {
    if uses_glyph(entry, i, text, ignore, overdrive) {
        range.can_give(c)
    } else {
        c == shown(entry, i, text, index, ignore, overdrive, MASK)
    }
}

/// What a position shows in a frame, `glyph` being the random glyph at hand.
pub fn show_entry(
    entry: ScrambleControl,
    i: usize,
    text: &Vec<char>,
    index: usize,
    ignore: &Vec<char>,
    overdrive: bool,
    glyph: char,
) -> (c: char)
    ensures
        c == shown(entry, i as int, text@, index as int, ignore@, overdrive, glyph),
{
    match entry {
        ScrambleControl::Number(n) => {
            if n > 0 {
                if i < text.len() && is_ignored(ignore, text[i]) {
                    text[i]
                } else if overdrive {
                    MASK
                } else {
                    glyph
                }
            } else if n == 0 && i < text.len() {
                text[i]
            } else {
                BLANK
            }
        },
        ScrambleControl::Char(c) => {
            if i >= text.len() || i >= index || c == text[i] {
                c
            } else {
                BLANK
            }
        },
        ScrambleControl::Null => BLANK,
    }
}

/// What a frame leaves of a position.
pub fn settle_entry(entry: ScrambleControl, i: usize, text: &Vec<char>, index: usize) -> (e:
    ScrambleControl)
    ensures
        e == settled(entry, i as int, text@, index as int),
{
    match entry {
        ScrambleControl::Number(n) => {
            if n > 0 {
                if i <= index {
                    ScrambleControl::Number(n - 1)
                } else {
                    entry
                }
            } else if n == 0 && i < text.len() {
                ScrambleControl::Char(text[i])
            } else {
                entry
            }
        },
        _ => entry,
    }
}

/// Whether a position shows a random glyph.
pub fn wants_glyph(
    entry: ScrambleControl,
    i: usize,
    text: &Vec<char>,
    ignore: &Vec<char>,
    overdrive: bool,
) -> (r: bool)
    ensures
        r == uses_glyph(entry, i as int, text@, ignore@, overdrive),
{
    entry.counting() && !overdrive && !(i < text.len() && is_ignored(ignore, text[i]))
}

/// Renders one frame: returns one character for every position of the table and
/// leaves in the table what the frame makes of each position.
///
/// `index` is the position that the wave has reached. A frame that shows exactly
/// the text comes from a table of the text's length, so nothing is left to trim.
pub fn render(
    control: &mut Vec<ScrambleControl>,
    text: &Vec<char>,
    index: usize,
    ignore: &Vec<char>,
    range: &RangeOrCharCodes,
    overdrive: bool,
) -> (out: Vec<char>)
    requires
        range.drawable(),
    ensures
        out@.len() == old(control)@.len(),
        final(control)@ == settled_table(old(control)@, text@, index as int),
        forall|i: int|
            0 <= i < out@.len() ==> can_show(
                old(control)@[i],
                i,
                text@,
                index as int,
                ignore@,
                *range,
                overdrive,
                #[trigger] out@[i],
            ),
{
    let mut out: Vec<char> = Vec::new();
    let mut i: usize = 0;
    while i < control.len()
        invariant
            i <= control@.len(),
            control@.len() == old(control)@.len(),
            out@.len() == i,
            range.drawable(),
            forall|k: int|
                0 <= k < i ==> (#[trigger] control@[k]) == settled(
                    old(control)@[k],
                    k,
                    text@,
                    index as int,
                ),
            forall|k: int| i <= k < control@.len() ==> (#[trigger] control@[k]) == old(control)@[k],
            forall|k: int|
                0 <= k < i ==> can_show(
                    old(control)@[k],
                    k,
                    text@,
                    index as int,
                    ignore@,
                    *range,
                    overdrive,
                    #[trigger] out@[k],
                ),
        decreases control.len() - i,
    {
        let entry: ScrambleControl = control[i];
        let glyph: char = if wants_glyph(entry, i, text, ignore, overdrive) {
            get_random_char(range)
        } else {
            MASK
        };
        let c: char = show_entry(entry, i, text, index, ignore, overdrive, glyph);
        control.set(i, settle_entry(entry, i, text, index));
        out.push(c);
        i += 1;
    }
    assert(control@ =~= settled_table(old(control)@, text@, index as int));
    out
}

} // verus!
