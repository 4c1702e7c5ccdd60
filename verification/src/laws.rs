//! What holds of every animation, proved from the contracts of the passes, the
//! renderer and the driver.

use vstd::prelude::*;
use crate::config::RangeOrCharCodes;
use crate::control::ScrambleControl;
use crate::glyph::MASK;
use crate::render::{can_show, pinned, settled, settled_table, shown, BLANK};
use crate::scheduler::{
    behind, can_step_to, capped, jitter_limit, longest_countdown, overdriven, pass_end, resized,
    seeds_allow, stepped, steps_allow, tick_allows, TOP_DRAW,
};
use crate::session::{blank_table, next_count, FrameOutcome, ScrambleText};

verus! {

/// A frame drawn from a table of the text's length, or at a tick, has exactly the
/// length of the text: every position shows one character.
pub proof fn drawn_frame_has_text_length(
    before: ScrambleText,
    after: ScrambleText,
    time: u64,
    outcome: FrameOutcome,
)
    requires
        before.wf(),
        after.answers(before, time, outcome),
        before.control@.len() == before.text@.len() || next_count(
            before.frame_count as int,
            before.props.tick as int,
        ) == 0,
    ensures
        (outcome matches FrameOutcome::Drawn { text, .. } && text@.len() == before.text@.len()),
{
}

/// A character that is never scrambled is shown as it is while its position
/// counts down, under overdrive too, whatever glyph is at hand.
pub proof fn ignored_character_shows_itself(
    entry: ScrambleControl,
    i: int,
    text: Seq<char>,
    index: int,
    ignore: Seq<char>,
    range: RangeOrCharCodes,
    overdrive: bool,
    c: char,
)
    requires
        entry.is_counting(),
        pinned(i, text, ignore),
        can_show(entry, i, text, index, ignore, range, overdrive, c),
    ensures
        c == text[i],
        forall|glyph: char|
            #[trigger] shown(entry, i, text, index, ignore, overdrive, glyph) == text[i],
{
}

/// Under overdrive a position that counts down shows the mask and no random glyph,
/// unless its character is one that is never scrambled.
pub proof fn overdrive_shows_mask(
    entry: ScrambleControl,
    i: int,
    text: Seq<char>,
    index: int,
    ignore: Seq<char>,
    range: RangeOrCharCodes,
    c: char,
)
    requires
        entry.is_counting(),
        !pinned(i, text, ignore),
        can_show(entry, i, text, index, ignore, range, true, c),
    ensures
        c == MASK,
{
}

/// A run that starts without overflow starts from a table of the text's length
/// in which no position holds a character; rendered as it is, such a table shows
/// blanks only and stays as it is.
pub proof fn blank_start_shows_no_character(
    before: ScrambleText,
    after: ScrambleText,
    index: int,
    range: RangeOrCharCodes,
    i: int,
    c: char,
)
    requires
        after.started_from(before),
        !before.props.overflow,
        0 <= i < before.text@.len(),
        can_show(
            after.control@[i],
            i,
            after.text@,
            index,
            after.props.ignore@,
            range,
            after.props.overdrive,
            c,
        ),
    ensures
        after.control@.len() == after.text@.len(),
        after.control@[i] == ScrambleControl::Null,
        c == BLANK,
        settled_table(after.control@, after.text@, index) == after.control@,
{
    assert(after.control@ =~= blank_table(before.text@.len()));
    assert(settled_table(after.control@, after.text@, index) =~= after.control@);
}

/// Stopping twice announces the end at most once: what the first stop leaves is
/// idle, so the second announces nothing and changes nothing.
pub proof fn second_stop_is_silent(before: ScrambleText, once: ScrambleText, twice: ScrambleText)
    requires
        once.stopped_from(before),
        twice.stopped_from(once),
    ensures
        !once.end_due(),
        !twice.running,
        twice.same_setup(once),
        twice.same_progress(once),
{
}

/// The wave moves on at every tick until it has passed the text.
pub proof fn wave_advances(index: int, step: int, len: int)
    requires
        step >= 1,
        0 <= index < len,
    ensures
        index < pass_end(index, step, len) <= len,
        pass_end(index, step, len) == len || pass_end(index, step, len) == index + step,
{
}

/// What the wave leaves at a position is the character of the text or a countdown
/// of at most `scramble` frames and the highest jitter.
pub proof fn wave_leaves_bounded_countdown(
    c: char,
    scramble: int,
    chance: int,
    e: ScrambleControl,
)
    requires
        0 <= scramble <= i32::MAX,
        can_step_to(c, scramble, chance, e),
    ensures
        e == ScrambleControl::Char(c) || (e matches ScrambleControl::Number(n) && scramble <= n
            <= capped(scramble + jitter_limit(scramble))),
{
    let (draw, jitter) = choose|draw: int, jitter: int|
        0 <= draw <= TOP_DRAW && 0 <= jitter <= jitter_limit(scramble) && e == #[trigger] stepped(
            c,
            scramble,
            chance,
            draw,
            jitter,
        );
    assert(e == stepped(c, scramble, chance, draw, jitter));
}

/// A tick leaves the positions behind the wave as the wave left them, and the wave
/// leaves the positions that it takes with their character or a bounded countdown.
pub proof fn tick_keeps_course(
    before: Seq<ScrambleControl>,
    after: Seq<ScrambleControl>,
    text: Seq<char>,
    index: int,
    next: int,
    seed: int,
    scramble: int,
    chance: int,
)
    requires
        0 <= scramble <= i32::MAX,
        0 <= index <= next <= text.len(),
        behind(before, text, index, longest_countdown(scramble)),
        tick_allows(before, after, text, index, next, seed, scramble, chance),
    ensures
        after.len() == text.len(),
        behind(after, text, next, longest_countdown(scramble)),
{
    let mid = choose|mid: Seq<ScrambleControl>|
        #[trigger] steps_allow(resized(before, text.len()), mid, text, index, next, scramble, chance)
            && seeds_allow(mid, after, next, scramble, seed, chance);
    assert forall|i: int| 0 <= i < next implies (#[trigger] after[i]) == ScrambleControl::Char(
        text[i],
    ) || (after[i] matches ScrambleControl::Number(n) && 0 <= n <= longest_countdown(scramble)) by {
        assert(after[i] == mid[i]);
        if i < index {
            assert(mid[i] == resized(before, text.len())[i]);
            assert(mid[i] == before[i]);
        } else {
            wave_leaves_bounded_countdown(text[i], scramble, chance, mid[i]);
        }
    }
}

/// A frame leaves the positions behind the wave as the wave left them: a countdown
/// gets shorter, and at its end the character of the text comes.
pub proof fn frame_keeps_course(
    table: Seq<ScrambleControl>,
    text: Seq<char>,
    index: int,
    bound: int,
)
    requires
        behind(table, text, index, bound),
    ensures
        behind(settled_table(table, text, index), text, index, bound),
{
    let next = settled_table(table, text, index);
    assert forall|i: int| 0 <= i < index implies (#[trigger] next[i]) == ScrambleControl::Char(
        text[i],
    ) || (next[i] matches ScrambleControl::Number(n) && 0 <= n <= bound) by {
        assert(next[i] == settled(table[i], i, text, index));
    }
}

/// The overdrive pass, which runs at or ahead of the wave, leaves the positions
/// behind the wave alone.
pub proof fn overdrive_keeps_course(
    table: Seq<ScrambleControl>,
    text: Seq<char>,
    ignore: Seq<char>,
    index: int,
    from: int,
    end: int,
    bound: int,
)
    requires
        behind(table, text, index, bound),
        index <= from,
    ensures
        behind(overdriven(table, text, ignore, from, end), text, index, bound),
{
}

/// Once the wave has passed the text, every position holds its character or a
/// bounded countdown, and `countdowns_run_out` tells the rest.
pub proof fn course_ends_within_bound(table: Seq<ScrambleControl>, text: Seq<char>, bound: int)
    requires
        table.len() == text.len(),
        behind(table, text, text.len() as int, bound),
    ensures
        within(table, text, bound),
{
}

/// Every position of the table holds the character of the text or a countdown of
/// at most `bound` frames; with a negative bound, every position is resolved.
pub open spec fn within(table: Seq<ScrambleControl>, text: Seq<char>, bound: int) -> bool {
    &&& table.len() == text.len()
    &&& forall|i: int|
        0 <= i < table.len() ==> (#[trigger] table[i]) == ScrambleControl::Char(text[i]) || (
        table[i] matches ScrambleControl::Number(n) && 0 <= n <= bound)
}

/// The table after `frames` frames rendered behind a wave that has passed the text.
pub open spec fn after_frames(table: Seq<ScrambleControl>, text: Seq<char>, frames: nat) -> Seq<
    ScrambleControl,
>
    decreases frames,
{
    if frames == 0 {
        table
    } else {
        after_frames(settled_table(table, text, text.len() as int), text, (frames - 1) as nat)
    }
}

/// Behind the wave every frame takes one frame off the longest countdown, and
/// resolves every position once no countdown is left.
pub proof fn frame_shortens_countdowns(table: Seq<ScrambleControl>, text: Seq<char>, bound: int)
    requires
        within(table, text, bound),
    ensures
        within(settled_table(table, text, text.len() as int), text, bound - 1),
{
    let next = settled_table(table, text, text.len() as int);
    assert forall|i: int| 0 <= i < next.len() implies (#[trigger] next[i])
        == ScrambleControl::Char(text[i]) || (next[i] matches ScrambleControl::Number(n) && 0 <= n
        <= bound - 1) by {
        assert(next[i] == settled(table[i], i, text, text.len() as int));
    }
}

/// Once the wave has passed the text, the animation converges: after more frames
/// than the longest countdown every position is resolved, and every frame from
/// then on shows exactly the text.
pub proof fn countdowns_run_out(
    table: Seq<ScrambleControl>,
    text: Seq<char>,
    bound: int,
    frames: nat,
    ignore: Seq<char>,
    overdrive: bool,
)
    requires
        within(table, text, bound),
        frames > bound,
    ensures
        within(after_frames(table, text, frames), text, -1),
        forall|i: int, glyph: char|
            0 <= i < text.len() ==> #[trigger] shown(
                after_frames(table, text, frames)[i],
                i,
                text,
                text.len() as int,
                ignore,
                overdrive,
                glyph,
            ) == text[i],
    decreases frames,
{
    if frames == 0 {
        assert(within(table, text, -1));
    } else {
        frame_shortens_countdowns(table, text, bound);
        countdowns_run_out(
            settled_table(table, text, text.len() as int),
            text,
            bound - 1,
            (frames - 1) as nat,
            ignore,
            overdrive,
        );
    }
    let last = after_frames(table, text, frames);
    assert forall|i: int, glyph: char| 0 <= i < text.len() implies #[trigger] shown(
        last[i],
        i,
        text,
        text.len() as int,
        ignore,
        overdrive,
        glyph,
    ) == text[i] by {
        assert(last[i] == ScrambleControl::Char(text[i]));
    }
}

/// Once the wave has passed the text, a drawn frame of a run on its course is a
/// rendering and nothing else: the tick and the overdrive pass find nothing to
/// do, and the table is what the frame leaves of the table before.
pub proof fn frame_behind_the_wave_only_renders(
    before: ScrambleText,
    after: ScrambleText,
    time: u64,
    shown: Seq<char>,
)
    requires
        before.on_course(),
        before.scramble_index == before.text@.len(),
        after.drawn_from(before, time, shown),
    ensures
        after.scramble_index == before.scramble_index,
        after.control@ == settled_table(
            before.control@,
            before.text@,
            before.text@.len() as int,
        ),
{
    let len = before.text@.len() as int;
    assert(before.overdrive_table() =~= before.control@);
    let pre = choose|pre: Seq<ScrambleControl>|
        {
            &&& if after.frame_count == 0 {
                tick_allows(
                    before.overdrive_table(),
                    pre,
                    before.text@,
                    before.scramble_index as int,
                    after.scramble_index as int,
                    before.props.seed as int,
                    before.props.scramble as int,
                    before.props.chance as int,
                )
            } else {
                pre == before.overdrive_table()
            }
            &&& #[trigger] settled_table(pre, before.text@, after.scramble_index as int)
                == after.control@
        };
    if after.frame_count == 0 {
        let mid = choose|mid: Seq<ScrambleControl>|
            #[trigger] steps_allow(
                resized(before.control@, before.text@.len()),
                mid,
                before.text@,
                len,
                len,
                before.props.scramble as int,
                before.props.chance as int,
            ) && seeds_allow(
                mid,
                pre,
                len,
                before.props.scramble as int,
                before.props.seed as int,
                before.props.chance as int,
            );
        assert(resized(before.control@, before.text@.len()) =~= before.control@);
        assert(pre =~= before.control@);
    }
}

/// A run on its course converges: once the wave has passed the text, more frames
/// than the longest countdown that the wave leaves resolve every position, and
/// every frame from then on shows exactly the text.
pub proof fn run_on_course_converges(s: ScrambleText, frames: nat, i: int, glyph: char)
    requires
        s.on_course(),
        s.scramble_index == s.text@.len(),
        frames > longest_countdown(s.props.scramble as int),
        0 <= i < s.text@.len(),
    ensures
        after_frames(s.control@, s.text@, frames)[i] == ScrambleControl::Char(s.text@[i]),
        shown(
            after_frames(s.control@, s.text@, frames)[i],
            i,
            s.text@,
            s.text@.len() as int,
            s.props.ignore@,
            s.props.overdrive,
            glyph,
        ) == s.text@[i],
{
    let bound = longest_countdown(s.props.scramble as int);
    course_ends_within_bound(s.control@, s.text@, bound);
    countdowns_run_out(s.control@, s.text@, bound, frames, s.props.ignore@, s.props.overdrive);
}

} // verus!
