//! The passes that arm positions of the table: the wave that steps through the
//! text, the seeds thrown ahead of it, and the overdrive mask.

use vstd::prelude::*;
use crate::config::UNIT;
use crate::control::ScrambleControl;
use crate::glyph::{random_int, MASK};

verus! {

/// The highest draw of a chance check; the lowest is 0. A draw is one of the
/// millionths of one, each as likely as the other.
pub const TOP_DRAW: i32 = UNIT - 1;

/// A draw passes a check against `chance` where it lies below it: of the draws from
/// 0 to `TOP_DRAW`, `chance` pass, so that a check passes with probability `chance`.
pub open spec fn draw_passes(chance: int, draw: int) -> bool {
    draw < chance
}

/// Whether `draw` passes a check against `chance`.
pub fn passes_chance(chance: i32, draw: i32) -> (r: bool)
    ensures
        r == draw_passes(chance as int, draw as int),
{
    draw < chance
}

/// The highest jitter added to a countdown of `scramble` frames: half of it, rounded up.
pub open spec fn jitter_limit(scramble: int) -> int {
    scramble / 2 + scramble % 2
}

/// The highest jitter added to a countdown of `scramble` frames.
pub fn jitter_max(scramble: i32) -> (r: i32)
    requires
        scramble >= 0,
    ensures
        r == jitter_limit(scramble as int),
{
    scramble / 2 + scramble % 2
}

/// A countdown of `n` frames, held at the largest `i32` where `n` is above it.
pub open spec fn capped(n: int) -> i32 {
    if n > i32::MAX {
        i32::MAX
    } else {
        n as i32
    }
}

/// What the wave leaves at a position whose character is `c`: a countdown of
/// `scramble` frames and the jitter where the draw passes the chance check, the
/// character itself where it does not.
pub open spec fn stepped(c: char, scramble: int, chance: int, draw: int, jitter: int)
    -> ScrambleControl {
    if draw_passes(chance, draw) {
        ScrambleControl::Number(capped(scramble + jitter))
    } else {
        ScrambleControl::Char(c)
    }
}

/// What the wave leaves at a position, for a given chance draw and jitter.
pub fn step_entry(c: char, scramble: i32, chance: i32, draw: i32, jitter: i32) -> (e:
    ScrambleControl)
    requires
        scramble >= 0,
        jitter >= 0,
    ensures
        e == stepped(c, scramble as int, chance as int, draw as int, jitter as int),
{
    if passes_chance(chance, draw) {
        if jitter > i32::MAX - scramble {
            ScrambleControl::Number(i32::MAX)
        } else {
            ScrambleControl::Number(scramble + jitter)
        }
    } else {
        ScrambleControl::Char(c)
    }
}

/// The wave can leave `e` at a position whose character is `c`.
pub open spec fn can_step_to(c: char, scramble: int, chance: int, e: ScrambleControl) -> bool {
    exists|draw: int, jitter: int|
        0 <= draw <= TOP_DRAW && 0 <= jitter <= jitter_limit(scramble) && e == #[trigger] stepped(
            c,
            scramble,
            chance,
            draw,
            jitter,
        )
}

/// What a seed leaves at a position that held `entry`: a countdown is kept, anything
/// else becomes a countdown of the larger of `scramble` and `seed` where the draw
/// passes the chance check, and one of zero frames where it does not.
pub open spec fn seeded(entry: ScrambleControl, scramble: int, seed: int, chance: int, draw: int)
    -> ScrambleControl {
    if entry is Number {
        entry
    } else if draw_passes(chance, draw) {
        ScrambleControl::Number(if scramble >= seed { scramble as i32 } else { seed as i32 })
    } else {
        ScrambleControl::Number(0)
    }
}

/// What a seed leaves at a position, for a given chance draw.
pub fn seed_entry(entry: ScrambleControl, scramble: i32, seed: i32, chance: i32, draw: i32) -> (e:
    ScrambleControl)
    ensures
        e == seeded(entry, scramble as int, seed as int, chance as int, draw as int),
{
    if entry.scrambling() {
        entry
    } else if passes_chance(chance, draw) {
        ScrambleControl::Number(if scramble >= seed { scramble } else { seed })
    } else {
        ScrambleControl::Number(0)
    }
}

/// A seed can leave `e` at a position that held `entry`.
pub open spec fn can_seed_to(
    entry: ScrambleControl,
    scramble: int,
    seed: int,
    chance: int,
    e: ScrambleControl,
) -> bool {
    exists|draw: int| 0 <= draw <= TOP_DRAW && e == #[trigger] seeded(entry, scramble, seed, chance, draw)
}

/// The character of the text at a position, and the null character beyond its end.
pub open spec fn source_at(text: Seq<char>, i: int) -> char {
    if 0 <= i < text.len() {
        text[i]
    } else {
        '\0'
    }
}

/// The character of the text at a position, and the null character beyond its end.
pub fn source_char(text: &Vec<char>, i: usize) -> (c: char)
    ensures
        c == source_at(text@, i as int),
{
    if i < text.len() {
        text[i]
    } else {
        '\0'
    }
}

/// Whether `c` is one of the characters that are never scrambled.
pub fn is_ignored(ignore: &Vec<char>, c: char) -> (r: bool)
    ensures
        r == ignore@.contains(c),
{
    let mut i: usize = 0;
    while i < ignore.len()
        invariant
            i <= ignore.len(),
            forall|k: int| 0 <= k < i ==> ignore@[k] != c,
        decreases ignore.len() - i,
    {
        if ignore[i] == c {
            return true;
        }
        i += 1;
    }
    false
}

/// What the overdrive pass leaves at a position: the mask, or the character of the
/// text where that one is never scrambled.
pub open spec fn masked(text: Seq<char>, ignore: Seq<char>, i: int) -> ScrambleControl {
    if ignore.contains(source_at(text, i)) {
        ScrambleControl::Char(source_at(text, i))
    } else {
        ScrambleControl::Char(MASK)
    }
}

/// A table cut or filled with unreached positions to `len` entries.
pub open spec fn resized(table: Seq<ScrambleControl>, len: nat) -> Seq<ScrambleControl> {
    Seq::new(
        len,
        |i: int|
            if i < table.len() {
                table[i]
            } else {
                ScrambleControl::Null
            },
    )
}

/// Cuts the table to `len` entries, or fills it to `len` with unreached positions.
pub fn resize_control(control: &mut Vec<ScrambleControl>, len: usize)
    ensures
        final(control)@ == resized(old(control)@, len as nat),
{
    if control.len() > len {
        control.truncate(len);
    }
    while control.len() < len
        invariant
            control@.len() <= len,
            control@.len() >= old(control)@.len() || control@.len() == len,
            control@ =~= resized(old(control)@, control@.len()),
        decreases len - control.len(),
    {
        control.push(ScrambleControl::Null);
    }
    assert(control@ =~= resized(old(control)@, len as nat));
}

/// Where a pass that takes `step` positions from `index` ends, held at `limit`.
pub open spec fn pass_end(index: int, step: int, limit: int) -> int {
    if index >= limit {
        index
    } else if index + step >= limit {
        limit
    } else {
        index + step
    }
}

/// Where a pass that takes `step` positions from `index` ends, held at `limit`.
pub fn pass_stop(index: usize, step: i32, limit: usize) -> (end: usize)
    requires
        step >= 1,
    ensures
        end == pass_end(index as int, step as int, limit as int),
{
    if index >= limit {
        index
    } else if step as usize >= limit - index {
        limit
    } else {
        index + step as usize
    }
}

/// The wave can turn `before` into `after` on its way from `index` to `next`: the
/// length stays, the positions it takes hold what the wave leaves there, and the
/// others are as before.
pub open spec fn steps_allow(
    before: Seq<ScrambleControl>,
    after: Seq<ScrambleControl>,
    text: Seq<char>,
    index: int,
    next: int,
    scramble: int,
    chance: int,
) -> bool {
    &&& after.len() == before.len()
    &&& forall|i: int|
        0 <= i < before.len() && !(index <= i < next) ==> (#[trigger] after[i]) == before[i]
    &&& forall|i: int|
        index <= i < next && i < text.len() ==> can_step_to(
            text[i],
            scramble,
            chance,
            #[trigger] after[i],
        )
}

/// Moves the wave: takes up to `step` positions from `index`, leaves at each a
/// countdown or its character, and returns the position after the last one taken.
///
/// The table has the length of the text, as it has after `resize_control`.
pub fn step_forward(
    control: &mut Vec<ScrambleControl>,
    text: &Vec<char>,
    index: usize,
    step: i32,
    scramble: i32,
    chance: i32,
) -> (next: usize)
    requires
        old(control)@.len() == text@.len(),
        step >= 1,
        scramble >= 0,
    ensures
        next == pass_end(index as int, step as int, text@.len() as int),
        steps_allow(
            old(control)@,
            final(control)@,
            text@,
            index as int,
            next as int,
            scramble as int,
            chance as int,
        ),
{
    let end: usize = pass_stop(index, step, text.len());
    let mut i: usize = index;
    while i < end
        invariant
            index <= i,
            i <= end || end == index,
            end == pass_end(index as int, step as int, text@.len() as int),
            end <= text@.len() || end == index,
            control@.len() == text@.len(),
            control@.len() == old(control)@.len(),
            scramble >= 0,
            forall|k: int|
                0 <= k < text@.len() && !(index <= k < i) ==> (#[trigger] control@[k]) == old(
                    control,
                )@[k],
            forall|k: int|
                index <= k < i ==> can_step_to(
                    text@[k],
                    scramble as int,
                    chance as int,
                    #[trigger] control@[k],
                ),
        decreases end - i,
    {
        let draw: i32 = random_int(0, TOP_DRAW);
        let jitter: i32 = random_int(0, jitter_max(scramble));
        let entry: ScrambleControl = step_entry(text[i], scramble, chance, draw, jitter);
        control.set(i, entry);
        assert(can_step_to(text@[i as int], scramble as int, chance as int, entry)) by {
            assert(entry == stepped(
                text@[i as int],
                scramble as int,
                chance as int,
                draw as int,
                jitter as int,
            ));
        }
        i += 1;
    }
    end
}

/// A seed pass can turn `before` into `after`: the length stays, and a position
/// changes only at or after `index`, only from something that is no countdown, and
/// only to what a seed leaves there.
pub open spec fn seeds_allow(
    before: Seq<ScrambleControl>,
    after: Seq<ScrambleControl>,
    index: int,
    scramble: int,
    seed: int,
    chance: int,
) -> bool {
    &&& after.len() == before.len()
    &&& forall|i: int|
        0 <= i < before.len() ==> (#[trigger] after[i]) == before[i] || (index <= i
            && !before[i].is_number() && can_seed_to(before[i], scramble, seed, chance, after[i]))
}

/// How many seeds a pass throws: `seed` of them, and none once the wave has passed
/// the text or the table.
pub open spec fn seed_count(table_len: int, text_len: int, index: int, seed: int) -> int {
    if index >= text_len || index >= table_len || seed <= 0 {
        0
    } else {
        seed
    }
}

/// The table after seeds have fallen one after the other: the k-th on the position
/// `at[k]`, with the chance draw `draws[k]`, on what the seeds before it have left.
pub open spec fn after_seeds(
    table: Seq<ScrambleControl>,
    at: Seq<int>,
    draws: Seq<int>,
    scramble: int,
    seed: int,
    chance: int,
) -> Seq<ScrambleControl>
    decreases at.len(),
{
    if at.len() == 0 {
        table
    } else {
        let fallen = after_seeds(table, at.drop_last(), draws.drop_last(), scramble, seed, chance);
        fallen.update(
            at.last(),
            seeded(fallen[at.last()], scramble, seed, chance, draws.last()),
        )
    }
}

/// `after` is `before` with `count` seeds thrown: each has fallen on some position
/// from `index` to the end of the table, with some chance draw.
pub open spec fn seeds_thrown(
    before: Seq<ScrambleControl>,
    after: Seq<ScrambleControl>,
    index: int,
    count: int,
    scramble: int,
    seed: int,
    chance: int,
) -> bool {
    exists|at: Seq<int>, draws: Seq<int>|
        {
            &&& at.len() == count
            &&& draws.len() == count
            &&& forall|k: int| 0 <= k < count ==> index <= #[trigger] at[k] < before.len()
            &&& forall|k: int| 0 <= k < count ==> 0 <= #[trigger] draws[k] <= TOP_DRAW
            &&& after == #[trigger] after_seeds(before, at, draws, scramble, seed, chance)
        }
}

/// Throws `seed` seeds ahead of the wave: each falls on a position drawn between
/// `index` and the end of the table, and arms it unless it counts down already.
/// Nothing is thrown once the wave has passed the text or the table.
pub fn seed_forward(
    control: &mut Vec<ScrambleControl>,
    text_len: usize,
    index: usize,
    seed: i32,
    scramble: i32,
    chance: i32,
)
    requires
        old(control)@.len() <= i32::MAX,
    ensures
        seeds_allow(
            old(control)@,
            final(control)@,
            index as int,
            scramble as int,
            seed as int,
            chance as int,
        ),
        (seed <= 0 || index >= text_len || index >= old(control)@.len()) ==> final(control)@
            == old(control)@,
        seeds_thrown(
            old(control)@,
            final(control)@,
            index as int,
            seed_count(old(control)@.len() as int, text_len as int, index as int, seed as int),
            scramble as int,
            seed as int,
            chance as int,
        ),
{
    let ghost mut fell: Seq<int> = Seq::empty();
    let ghost mut drawn: Seq<int> = Seq::empty();
    if index >= text_len || index >= control.len() {
        assert(control@ == after_seeds(
            old(control)@,
            fell,
            drawn,
            scramble as int,
            seed as int,
            chance as int,
        ));
        return ;
    }
    let last: i32 = (control.len() - 1) as i32;
    let first: i32 = index as i32;
    let mut thrown: i32 = 0;
    while thrown < seed
        invariant
            control@.len() == old(control)@.len(),
            control@.len() <= i32::MAX,
            0 <= first <= last,
            first == index,
            last == control@.len() - 1,
            0 <= thrown,
            thrown == 0 || thrown <= seed,
            thrown == 0 ==> control@ == old(control)@,
            fell.len() == thrown,
            drawn.len() == thrown,
            forall|k: int| 0 <= k < thrown ==> index <= #[trigger] fell[k] < old(control)@.len(),
            forall|k: int| 0 <= k < thrown ==> 0 <= #[trigger] drawn[k] <= TOP_DRAW,
            control@ == after_seeds(
                old(control)@,
                fell,
                drawn,
                scramble as int,
                seed as int,
                chance as int,
            ),
            seeds_allow(
                old(control)@,
                control@,
                index as int,
                scramble as int,
                seed as int,
                chance as int,
            ),
        decreases seed - thrown,
    {
        let at: i32 = random_int(first, last);
        let draw: i32 = random_int(0, TOP_DRAW);
        let held: ScrambleControl = control[at as usize];
        let entry: ScrambleControl = seed_entry(held, scramble, seed, chance, draw);
        let ghost prev = control@;
        control.set(at as usize, entry);
        proof {
            assert(fell.push(at as int).drop_last() =~= fell);
            assert(drawn.push(draw as int).drop_last() =~= drawn);
            fell = fell.push(at as int);
            drawn = drawn.push(draw as int);
            assert(control@ =~= after_seeds(
                old(control)@,
                fell,
                drawn,
                scramble as int,
                seed as int,
                chance as int,
            ));
            assert forall|i: int| 0 <= i < control@.len() implies (#[trigger] control@[i]) == old(
                control,
            )@[i] || (index <= i && !old(control)@[i].is_number() && can_seed_to(
                old(control)@[i],
                scramble as int,
                seed as int,
                chance as int,
                control@[i],
            )) by {
                if i == at {
                    if prev[i] == old(control)@[i] {
                        assert(entry == seeded(
                            prev[i],
                            scramble as int,
                            seed as int,
                            chance as int,
                            draw as int,
                        ));
                    } else {
                        assert(prev[i].is_number());
                    }
                } else {
                    assert(control@[i] == prev[i]);
                }
            }
        }
        thrown += 1;
    }
}

/// The table after an overdrive pass from `index`: it reaches at least to the end
/// of the pass, the positions of the pass hold the mask or their own character, and
/// the others are as before or unreached.
pub open spec fn overdriven(
    table: Seq<ScrambleControl>,
    text: Seq<char>,
    ignore: Seq<char>,
    index: int,
    end: int,
) -> Seq<ScrambleControl> {
    Seq::new(
        if end > index && end > table.len() {
            end as nat
        } else {
            table.len()
        },
        |i: int|
            if index <= i < end {
                masked(text, ignore, i)
            } else if i < table.len() {
                table[i]
            } else {
                ScrambleControl::Null
            },
    )
}

/// The longer of the table and the text: where the overdrive pass ends.
pub open spec fn overdrive_limit(table_len: int, text_len: int) -> int {
    if table_len >= text_len {
        table_len
    } else {
        text_len
    }
}

/// Runs the overdrive pass: takes up to `step` positions from `index`, up to the
/// longer of the table and the text, marks each with the mask (or with its own
/// character where that one is never scrambled), and returns the position after
/// the last one taken. The table grows where the pass reaches beyond it.
pub fn overdrive_pass(
    control: &mut Vec<ScrambleControl>,
    text: &Vec<char>,
    ignore: &Vec<char>,
    index: usize,
    step: i32,
) -> (next: usize)
    requires
        step >= 1,
    ensures
        next == pass_end(
            index as int,
            step as int,
            overdrive_limit(old(control)@.len() as int, text@.len() as int),
        ),
        final(control)@ == overdriven(old(control)@, text@, ignore@, index as int, next as int),
{
    let limit: usize = if control.len() >= text.len() {
        control.len()
    } else {
        text.len()
    };
    let end: usize = pass_stop(index, step, limit);
    if end > index && end > control.len() {
        resize_control(control, end);
    }
    let ghost grown = control@;
    let mut i: usize = index;
    while i < end
        invariant
            index <= i,
            i <= end || end == index,
            end <= control@.len() || end == index,
            control@.len() == grown.len(),
            forall|k: int|
                0 <= k < grown.len() && !(index <= k < i) ==> (#[trigger] control@[k]) == grown[k],
            forall|k: int|
                index <= k < i ==> (#[trigger] control@[k]) == masked(text@, ignore@, k),
        decreases end - i,
    {
        let c: char = source_char(text, i);
        let entry: ScrambleControl = if is_ignored(ignore, c) {
            ScrambleControl::Char(c)
        } else {
            ScrambleControl::Char(MASK)
        };
        control.set(i, entry);
        i += 1;
    }
    assert(control@ =~= overdriven(old(control)@, text@, ignore@, index as int, end as int));
    end
}

/// The longest countdown that the wave leaves: `scramble` frames and the highest
/// jitter.
pub open spec fn longest_countdown(scramble: int) -> int {
    capped(scramble + jitter_limit(scramble)) as int
}

/// The wave has been through every position before `index` and nothing has
/// disturbed them since: each holds its character of the text or a countdown of
/// at most `bound` frames.
pub open spec fn behind(table: Seq<ScrambleControl>, text: Seq<char>, index: int, bound: int)
    -> bool {
    &&& index <= table.len()
    &&& index <= text.len()
    &&& forall|i: int|
        0 <= i < index ==> (#[trigger] table[i]) == ScrambleControl::Char(text[i]) || (
        table[i] matches ScrambleControl::Number(n) && 0 <= n <= bound)
}

/// One tick can turn `before` into `after`: the table is brought to the length of
/// the text, the wave moves from `index` to `next`, and `seed` seeds fall at or
/// after `next`, unless the wave has passed the text.
pub open spec fn tick_allows(
    before: Seq<ScrambleControl>,
    after: Seq<ScrambleControl>,
    text: Seq<char>,
    index: int,
    next: int,
    seed: int,
    scramble: int,
    chance: int,
) -> bool {
    exists|mid: Seq<ScrambleControl>|
        #[trigger] steps_allow(resized(before, text.len()), mid, text, index, next, scramble, chance)
            && seeds_allow(mid, after, next, scramble, seed, chance) && seeds_thrown(
            mid,
            after,
            next,
            seed_count(text.len() as int, text.len() as int, next, seed),
            scramble,
            seed,
            chance,
        )
}

/// Runs one tick: brings the table to the length of the text, moves the wave by
/// `step` positions from `index`, throws `seed` seeds ahead of it, and returns the
/// position that the wave has reached.
pub fn on_tick(
    control: &mut Vec<ScrambleControl>,
    text: &Vec<char>,
    index: usize,
    step: i32,
    seed: i32,
    scramble: i32,
    chance: i32,
) -> (next: usize)
    requires
        text@.len() <= i32::MAX,
        step >= 1,
        scramble >= 0,
    ensures
        next == pass_end(index as int, step as int, text@.len() as int),
        final(control)@.len() == text@.len(),
        tick_allows(
            old(control)@,
            final(control)@,
            text@,
            index as int,
            next as int,
            seed as int,
            scramble as int,
            chance as int,
        ),
{
    resize_control(control, text.len());
    let next: usize = step_forward(control, text, index, step, scramble, chance);
    let ghost mid = control@;
    seed_forward(control, text.len(), next, seed, scramble, chance);
    assert(steps_allow(
        resized(old(control)@, text@.len()),
        mid,
        text@,
        index as int,
        next as int,
        scramble as int,
        chance as int,
    ));
    next
}

} // verus!
