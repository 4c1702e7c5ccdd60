//! The state kept for one position of the text.

use vstd::prelude::*;
use crate::text::string_of;

verus! {

/// What one position of the text is doing.
///
/// `Null` is a position that no pass has reached yet, `Number(n)` one that shows
/// scrambled glyphs for `n` more frames (`Number(0)` resolves at the next frame),
/// and `Char(c)` one that shows `c` as it is.
#[derive(Clone, Copy, Debug, PartialEq, Eq, Structural)]
pub enum ScrambleControl {
    Char(char),
    Number(i32),
    Null,
}

/// The character of a decimal digit.
pub open spec fn digit_char(d: int) -> char {
    (48 + d) as char
}

/// The decimal digits of a number, the highest first.
pub open spec fn digits(n: nat) -> Seq<char>
    decreases n,
{
    if n < 10 {
        seq![digit_char(n as int)]
    } else {
        digits(n / 10).push(digit_char((n % 10) as int))
    }
}

/// A number written in decimal, with a minus sign where it is negative.
pub open spec fn decimal(n: int) -> Seq<char> {
    if n < 0 {
        seq!['-'] + digits((-n) as nat)
    } else {
        digits(n as nat)
    }
}

/// Appends the decimal digits of `n` to `out`.
pub fn push_digits(out: &mut Vec<char>, n: u32)
    ensures
        final(out)@ == old(out)@ + digits(n as nat),
    decreases n,
{
    if n >= 10 {
        push_digits(out, n / 10);
    }
    let d: u32 = n % 10;
    let c: char = match char::from_u32(48 + d) {
        Some(c) => c,
        None => '0',
    };
    out.push(c);
    assert(out@ =~= old(out)@ + digits(n as nat));
}

impl ScrambleControl {
    /// The position written out: its character, its countdown in decimal, or
    /// nothing for a position that no pass has reached.
    pub open spec fn text(self) -> Seq<char> {
        match self {
            ScrambleControl::Char(c) => seq![c],
            ScrambleControl::Number(n) => decimal(n as int),
            ScrambleControl::Null => Seq::<char>::empty(),
        }
    }

    /// Writes the position out.
    pub fn to_string(&self) -> (s: String)
        ensures
            s@ == self.text(),
    {
        let mut out: Vec<char> = Vec::new();
        match self {
            ScrambleControl::Char(c) => {
                out.push(*c);
            },
            ScrambleControl::Number(n) => {
                if *n < 0 {
                    out.push('-');
                    push_digits(&mut out, (-(*n as i64)) as u32);
                } else {
                    push_digits(&mut out, *n as u32);
                }
            },
            ScrambleControl::Null => {},
        }
        assert(out@ =~= self.text());
        string_of(&out)
    }

    /// A countdown, at zero or above it.
    pub open spec fn is_number(self) -> bool {
        self is Number
    }

    /// A countdown that still has frames to run.
    pub open spec fn is_counting(self) -> bool {
        self matches ScrambleControl::Number(n) && n > 0
    }

    /// Whether the position is a countdown of any length.
    pub fn scrambling(&self) -> (r: bool)
        ensures
            r == self.is_number(),
    {
        match self {
            ScrambleControl::Number(_) => true,
            _ => false,
        }
    }

    /// Whether the position still shows a scrambled glyph.
    pub fn counting(&self) -> (r: bool)
        ensures
            r == self.is_counting(),
    {
        match self {
            ScrambleControl::Number(n) => *n > 0,
            _ => false,
        }
    }
}

/// Some position of `table` still counts down.
pub open spec fn any_counting(table: Seq<ScrambleControl>) -> bool {
    exists|i: int| 0 <= i < table.len() && (#[trigger] table[i]).is_counting()
}

/// Whether some position of the table still counts down.
pub fn has_counting(table: &Vec<ScrambleControl>) -> (r: bool)
    ensures
        r == any_counting(table@),
{
    let mut i: usize = 0;
    while i < table.len()
        invariant
            i <= table.len(),
            forall|k: int| 0 <= k < i ==> !(#[trigger] table@[k]).is_counting(),
        decreases table.len() - i,
    {
        if table[i].counting() {
            return true;
        }
        i += 1;
    }
    false
}

} // verus!
