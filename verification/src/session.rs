//! The animation driver: one session over one text, fed with the frames that a
//! clock delivers. It owns the table and decides what is shown and when the
//! animation has ended; whoever holds it performs what it decides.

use vstd::prelude::*;
use vstd::string::*;
use crate::config::{UseScrambleProps, UNIT};
use crate::control::{any_counting, has_counting, ScrambleControl};
use crate::render::{can_show, render, settled_table};
use crate::laws::{frame_keeps_course, overdrive_keeps_course, tick_keeps_course};
use crate::scheduler::{
    behind, longest_countdown, on_tick, overdrive_limit, overdrive_pass, overdriven, pass_end,
    resize_control, tick_allows,
};
use crate::text::{chars_of, same_chars, string_of};

verus! {

/// An animation of one text.
pub struct ScrambleText {
    /// The parameters, valid since the session was made.
    pub props: UseScrambleProps,
    /// The characters of the text.
    pub text: Vec<char>,
    /// The state of each position.
    pub control: Vec<ScrambleControl>,
    /// The position that the wave has reached.
    pub scramble_index: usize,
    /// The position that the overdrive pass has reached.
    pub overdrive_index: usize,
    /// Frames drawn since the last tick; a tick is due when it returns to zero.
    pub frame_count: i32,
    /// The time of the last frame that was drawn, in microseconds.
    pub last_frame: u64,
    /// Whether frames are being taken.
    pub running: bool,
    /// Whether someone listens for the start of a run.
    pub on_animation_start: bool,
    /// Whether someone listens for the end of a run.
    pub on_animation_end: bool,
    /// Whether someone listens for each frame.
    pub on_animation_frame: bool,
}

/// What the holder of a session does after `start`.
#[derive(Clone, Copy, Debug, PartialEq, Eq, Structural)]
pub struct StartOutcome {
    /// A run was under way and has been stopped: its end is to be announced.
    pub notify_end: bool,
    /// The start of the new run is to be announced.
    pub notify_start: bool,
}

/// What the holder of a session does after a delivered frame.
#[derive(Debug)]
pub enum FrameOutcome {
    /// Nothing is drawn: no run is under way, the animation is paused, or the frame
    /// came too early.
    Skipped,
    /// `text` is to be shown. With `ended` the run is over and the clock is to be
    /// released.
    Drawn { text: String, notify_frame: bool, ended: bool, notify_end: bool },
}

/// A table of `len` positions that no pass has reached.
pub open spec fn blank_table(len: nat) -> Seq<ScrambleControl> {
    Seq::new(len, |i: int| ScrambleControl::Null)
}

/// Whether a frame is due `elapsed` microseconds after the last one: the time in
/// milliseconds exceeds 1000 / (60 * speed), with `speed` in millionths.
pub open spec fn paced(elapsed: int, speed: int) -> bool {
    elapsed * 60 * speed > 1_000_000_000_000
}

/// The time between two moments of the clock; none where it ran backwards.
pub open spec fn elapsed_between(last: int, time: int) -> int {
    if time > last {
        time - last
    } else {
        0
    }
}

/// Whether a frame delivered at `time` is due after one drawn at `last`.
pub fn due(last: u64, time: u64, speed: i32) -> (r: bool)
    requires
        0 <= speed <= UNIT,
    ensures
        r == paced(elapsed_between(last as int, time as int), speed as int),
{
    let elapsed: u64 = if time > last {
        time - last
    } else {
        0
    };
    assert(elapsed * 60 * speed <= 0xffff_ffff_ffff_ffff * 60 * 1_000_000) by (nonlinear_arith)
        requires
            0 <= elapsed <= 0xffff_ffff_ffff_ffff,
            0 <= speed <= 1_000_000,
    ;
    assert(elapsed * 60 <= 0xffff_ffff_ffff_ffff * 60);
    (elapsed as u128) * 60 * (speed as u128) > 1_000_000_000_000
}

/// The count of frames since the last tick, after one more frame.
pub open spec fn next_count(count: int, tick: int) -> int {
    if count + 1 >= tick {
        0
    } else {
        count + 1
    }
}

impl UseScrambleProps {
    /// `self` is `before` as it is animated: unchanged, or, where reduced motion is
    /// preferred, with the whole text taken in one step, no chance of scrambling
    /// and no overdrive.
    pub open spec fn eased_from(self, before: Self, reduced: bool) -> bool {
        &&& self.play_on_mount == before.play_on_mount
        &&& self.text == before.text
        &&& self.speed == before.speed
        &&& self.tick == before.tick
        &&& self.seed == before.seed
        &&& self.scramble == before.scramble
        &&& self.ignore == before.ignore
        &&& self.range == before.range
        &&& self.overflow == before.overflow
        &&& self.hover_replay == before.hover_replay
        &&& self.step == if reduced {
            if before.text@.len() >= 1 {
                before.text@.len() as i32
            } else {
                1
            }
        } else {
            before.step
        }
        &&& self.chance == if reduced {
            0
        } else {
            before.chance
        }
        &&& self.overdrive == (!reduced && before.overdrive)
    }

    /// Makes the session that animates these parameters, or refuses them with
    /// the sentence that names the first faulty field. Where reduced motion is
    /// preferred the effect is switched off: the whole text is taken in one step
    /// (one position for an empty text), with no chance of scrambling and no
    /// overdrive.
    pub fn use_scramble(self, prefers_reduced_motion: bool) -> (r: Result<ScrambleText, String>)
        requires
            self.text@.len() <= i32::MAX,
            self.range.indexable(),
        ensures
            r is Ok <==> self.is_valid(),
            r matches Err(s) ==> self.first_fault() matches Some(e) && s@ == e.text(),
            r matches Ok(session) ==> session.wf() && session.props.eased_from(
                self,
                prefers_reduced_motion,
            ) && session.control@.len() == 0 && !session.running,
    {
        match self.validate() {
            Err(s) => Err(s),
            Ok(()) => {
                let mut props = self;
                if prefers_reduced_motion {
                    let len: usize = props.text.as_str().unicode_len();
                    props.step = if len >= 1 {
                        len as i32
                    } else {
                        1
                    };
                    props.chance = 0;
                    props.overdrive = false;
                }
                ScrambleText::new(props)
            },
        }
    }
}

impl ScrambleText {
    /// The state is one that the methods leave: valid parameters, the text of the
    /// parameters, a table no longer than the text, and both passes within it.
    pub open spec fn wf(self) -> bool {
        &&& self.props.is_valid()
        &&& self.text@ == self.props.text@
        &&& self.text@.len() <= i32::MAX
        &&& self.props.range.indexable()
        &&& self.control@.len() <= self.text@.len()
        &&& self.scramble_index <= self.text@.len()
        &&& self.overdrive_index <= self.text@.len()
        &&& 0 <= self.frame_count < self.props.tick
    }

    /// The run is on its course: the overdrive pass, where it is on, is at or ahead
    /// of the wave, and every position behind the wave holds its character of the
    /// text or a countdown no longer than the wave leaves.
    pub open spec fn on_course(self) -> bool {
        &&& self.wf()
        &&& self.props.overdrive ==> self.scramble_index <= self.overdrive_index
        &&& behind(
            self.control@,
            self.text@,
            self.scramble_index as int,
            longest_countdown(self.props.scramble as int),
        )
    }

    /// Everything that no method changes is the same in both sessions.
    pub open spec fn same_setup(self, other: Self) -> bool {
        &&& self.props == other.props
        &&& self.text@ == other.text@
        &&& self.on_animation_start == other.on_animation_start
        &&& self.on_animation_end == other.on_animation_end
        &&& self.on_animation_frame == other.on_animation_frame
    }

    /// The progress of the animation is the same in both sessions.
    pub open spec fn same_progress(self, other: Self) -> bool {
        &&& self.control@ == other.control@
        &&& self.scramble_index == other.scramble_index
        &&& self.overdrive_index == other.overdrive_index
        &&& self.frame_count == other.frame_count
        &&& self.last_frame == other.last_frame
    }

    /// Stopping announces an end: a run is under way and someone listens.
    pub open spec fn end_due(self) -> bool {
        self.running && self.on_animation_end
    }

    /// `self` is what `stop` leaves of `before`.
    pub open spec fn stopped_from(self, before: Self) -> bool {
        &&& !self.running
        &&& self.same_setup(before)
        &&& self.same_progress(before)
    }

    /// `self` is what `start` leaves of `before`.
    pub open spec fn started_from(self, before: Self) -> bool {
        &&& self.running
        &&& self.same_setup(before)
        &&& self.scramble_index == 0
        &&& self.overdrive_index == 0
        &&& self.frame_count == 0
        &&& self.last_frame == before.last_frame
        &&& self.control@ == if before.props.overflow {
            before.control@
        } else {
            blank_table(before.text@.len())
        }
    }

    /// Makes an idle session for valid parameters, with an empty table and no
    /// listener; refuses others with the sentence that names the first faulty field.
    ///
    /// Positions of the text and indices of a set of codes are drawn as `i32`, so
    /// both lengths have to fit one.
    pub fn new(props: UseScrambleProps) -> (r: Result<ScrambleText, String>)
        requires
            props.text@.len() <= i32::MAX,
            props.range.indexable(),
        ensures
            r is Ok <==> props.is_valid(),
            r matches Err(s) ==> props.first_fault() matches Some(e) && s@ == e.text(),
            r matches Ok(session) ==> session.on_course() && session.props == props
                && session.control@.len() == 0 && !session.running && session.scramble_index == 0
                && session.overdrive_index == 0 && session.frame_count == 0 && session.last_frame
                == 0 && !session.on_animation_start && !session.on_animation_end
                && !session.on_animation_frame,
    {
        match props.validate() {
            Err(s) => Err(s),
            Ok(()) => {
                let text: Vec<char> = chars_of(props.text.as_str());
                Ok(
                    ScrambleText {
                        props,
                        text,
                        control: Vec::new(),
                        scramble_index: 0,
                        overdrive_index: 0,
                        frame_count: 0,
                        last_frame: 0,
                        running: false,
                        on_animation_start: false,
                        on_animation_end: false,
                        on_animation_frame: false,
                    },
                )
            },
        }
    }

    /// Records whether someone listens for the start of a run; the last call counts.
    pub fn set_on_animation_start(&mut self, listening: bool)
        ensures
            final(self).on_animation_start == listening,
            final(self).props == old(self).props,
            final(self).text@ == old(self).text@,
            final(self).on_animation_end == old(self).on_animation_end,
            final(self).on_animation_frame == old(self).on_animation_frame,
            final(self).running == old(self).running,
            final(self).same_progress(*old(self)),
    {
        self.on_animation_start = listening;
    }

    /// Records whether someone listens for the end of a run; the last call counts.
    pub fn set_on_animation_end(&mut self, listening: bool)
        ensures
            final(self).on_animation_end == listening,
            final(self).props == old(self).props,
            final(self).text@ == old(self).text@,
            final(self).on_animation_start == old(self).on_animation_start,
            final(self).on_animation_frame == old(self).on_animation_frame,
            final(self).running == old(self).running,
            final(self).same_progress(*old(self)),
    {
        self.on_animation_end = listening;
    }

    /// Records whether someone listens for each frame; the last call counts.
    pub fn set_on_animation_frame(&mut self, listening: bool)
        ensures
            final(self).on_animation_frame == listening,
            final(self).props == old(self).props,
            final(self).text@ == old(self).text@,
            final(self).on_animation_start == old(self).on_animation_start,
            final(self).on_animation_end == old(self).on_animation_end,
            final(self).running == old(self).running,
            final(self).same_progress(*old(self)),
    {
        self.on_animation_frame = listening;
    }

    /// Ends the run, if one is under way, and says whether its end is to be
    /// announced. Stopping an idle session changes nothing and announces nothing.
    pub fn stop(&mut self) -> (notify_end: bool)
        ensures
            notify_end == old(self).end_due(),
            final(self).stopped_from(*old(self)),
            old(self).wf() ==> final(self).wf(),
            old(self).on_course() ==> final(self).on_course(),
    {
        let notify_end: bool = self.running && self.on_animation_end;
        self.running = false;
        notify_end
    }

    /// Starts a run from the beginning, after stopping the one under way: both
    /// passes and the frame count return to zero, and without `overflow` the table
    /// is blanked to the length of the text.
    pub fn start(&mut self) -> (r: StartOutcome)
        requires
            old(self).wf(),
        ensures
            final(self).wf(),
            final(self).on_course(),
            final(self).started_from(*old(self)),
            r.notify_end == old(self).end_due(),
            r.notify_start == old(self).on_animation_start,
    {
        let notify_end: bool = self.stop();
        self.frame_count = 0;
        self.scramble_index = 0;
        self.overdrive_index = 0;
        if !self.props.overflow {
            self.control.clear();
            resize_control(&mut self.control, self.text.len());
            assert(self.control@ =~= blank_table(self.text@.len()));
        }
        self.running = true;
        StartOutcome { notify_end, notify_start: self.on_animation_start }
    }

    /// Whether a run is under way.
    pub fn is_running(&self) -> (r: bool)
        ensures
            r == self.running,
    {
        self.running
    }

    /// The table after the overdrive pass that opens a frame.
    pub open spec fn overdrive_table(self) -> Seq<ScrambleControl> {
        if self.props.overdrive {
            overdriven(
                self.control@,
                self.text@,
                self.props.ignore@,
                self.overdrive_index as int,
                self.overdrive_after(),
            )
        } else {
            self.control@
        }
    }

    /// The position of the overdrive pass after the one that opens a frame.
    pub open spec fn overdrive_after(self) -> int {
        if self.props.overdrive {
            pass_end(
                self.overdrive_index as int,
                self.props.step as int,
                overdrive_limit(self.control@.len() as int, self.text@.len() as int),
            )
        } else {
            self.overdrive_index as int
        }
    }

    /// A frame delivered at `time` does work: a run is under way and not paused.
    pub open spec fn takes_frames(self) -> bool {
        self.running && self.props.speed != 0
    }

    /// A frame delivered at `time` is drawn.
    pub open spec fn draws_at(self, time: u64) -> bool {
        self.takes_frames() && paced(
            elapsed_between(self.last_frame as int, time as int),
            self.props.speed as int,
        )
    }

    /// `self` and `shown` are what a frame drawn at `time` can leave of `before`:
    /// the tick, where one is due, and then the rendering of every position.
    pub open spec fn drawn_from(self, before: Self, time: u64, shown: Seq<char>) -> bool {
        let count = next_count(before.frame_count as int, before.props.tick as int);
        &&& self.last_frame == time
        &&& self.frame_count == count
        &&& self.overdrive_index == before.overdrive_after()
        &&& self.scramble_index == if count == 0 {
            pass_end(
                before.scramble_index as int,
                before.props.step as int,
                before.text@.len() as int,
            )
        } else {
            before.scramble_index as int
        }
        &&& exists|pre: Seq<ScrambleControl>|
            {
                &&& if count == 0 {
                    tick_allows(
                        before.overdrive_table(),
                        pre,
                        before.text@,
                        before.scramble_index as int,
                        self.scramble_index as int,
                        before.props.seed as int,
                        before.props.scramble as int,
                        before.props.chance as int,
                    )
                } else {
                    pre == before.overdrive_table()
                }
                &&& #[trigger] settled_table(pre, before.text@, self.scramble_index as int)
                    == self.control@
                &&& shown.len() == pre.len()
                &&& forall|i: int|
                    0 <= i < shown.len() ==> can_show(
                        pre[i],
                        i,
                        before.text@,
                        self.scramble_index as int,
                        before.props.ignore@,
                        before.props.range,
                        before.props.overdrive,
                        #[trigger] shown[i],
                    )
            }
    }

    /// The run is over after a frame that showed `shown`: the text is on display
    /// and no position counts down any more.
    pub open spec fn over_after(self, shown: Seq<char>) -> bool {
        shown == self.text@ && !any_counting(self.control@)
    }

    /// `self` is what a frame leaves of `before` where no run is under way or the
    /// animation is paused: the same.
    pub open spec fn untouched_from(self, before: Self) -> bool {
        self.same_progress(before) && self.running == before.running
    }

    /// `self` is what a frame that came too early leaves of `before`: only the
    /// overdrive pass has run.
    pub open spec fn waiting_from(self, before: Self) -> bool {
        &&& self.running
        &&& self.control@ == before.overdrive_table()
        &&& self.overdrive_index == before.overdrive_after()
        &&& self.scramble_index == before.scramble_index
        &&& self.frame_count == before.frame_count
        &&& self.last_frame == before.last_frame
    }

    /// `self` and `outcome` are what a frame drawn at `time` can leave of `before`.
    pub open spec fn answers(self, before: Self, time: u64, outcome: FrameOutcome) -> bool {
        &&& outcome matches FrameOutcome::Drawn { text, notify_frame, ended, notify_end }
        &&& self.drawn_from(before, time, text@)
        &&& text@.len() == self.control@.len()
        &&& ended == self.over_after(text@)
        &&& self.running == !ended
        &&& notify_frame == before.on_animation_frame
        &&& notify_end == (ended && before.on_animation_end)
    }

    /// Takes a frame that the clock delivers at `time`, in microseconds.
    ///
    /// Without a run, or at speed zero, nothing happens. Otherwise the overdrive
    /// pass runs, if it is on; and if the frame is due, the tick runs where one is
    /// due, the table is rendered, and the run ends once the text is on display
    /// with no countdown left.
    pub fn frame(&mut self, time: u64) -> (r: FrameOutcome)
        requires
            old(self).wf(),
        ensures
            final(self).wf(),
            final(self).same_setup(*old(self)),
            old(self).on_course() ==> final(self).on_course(),
            old(self).control@.len() == old(self).text@.len() ==> final(self).control@.len()
                == old(self).text@.len(),
            !old(self).takes_frames() ==> r is Skipped && final(self).untouched_from(*old(self)),
            old(self).takes_frames() && !old(self).draws_at(time) ==> r is Skipped && final(
                self).waiting_from(*old(self)),
            old(self).draws_at(time) ==> final(self).answers(*old(self), time, r),
    {
        if !self.running || self.props.speed == 0 {
            return FrameOutcome::Skipped;
        }
        let ghost bound = longest_countdown(self.props.scramble as int);
        if self.props.overdrive {
            self.overdrive_index = overdrive_pass(
                &mut self.control,
                &self.text,
                &self.props.ignore,
                self.overdrive_index,
                self.props.step,
            );
            proof {
                if old(self).on_course() {
                    overdrive_keeps_course(
                        old(self).control@,
                        self.text@,
                        self.props.ignore@,
                        self.scramble_index as int,
                        old(self).overdrive_index as int,
                        self.overdrive_index as int,
                        bound,
                    );
                }
            }
        }
        if !due(self.last_frame, time, self.props.speed) {
            return FrameOutcome::Skipped;
        }
        self.last_frame = time;
        self.frame_count = if self.frame_count + 1 >= self.props.tick {
            0
        } else {
            self.frame_count + 1
        };
        let ghost opened = self.control@;
        if self.frame_count == 0 {
            self.scramble_index = on_tick(
                &mut self.control,
                &self.text,
                self.scramble_index,
                self.props.step,
                self.props.seed,
                self.props.scramble,
                self.props.chance,
            );
        }
        let ghost pre = self.control@;
        proof {
            if old(self).on_course() {
                if self.frame_count == 0 {
                    tick_keeps_course(
                        opened,
                        pre,
                        self.text@,
                        old(self).scramble_index as int,
                        self.scramble_index as int,
                        self.props.seed as int,
                        self.props.scramble as int,
                        self.props.chance as int,
                    );
                }
                frame_keeps_course(pre, self.text@, self.scramble_index as int, bound);
            }
        }
        let shown: Vec<char> = render(
            &mut self.control,
            &self.text,
            self.scramble_index,
            &self.props.ignore,
            &self.props.range,
            self.props.overdrive,
        );
        let ended: bool = same_chars(&shown, &self.text) && !has_counting(&self.control);
        if ended {
            self.running = false;
        }
        proof {
            assert(settled_table(pre, self.text@, self.scramble_index as int) == self.control@);
        }
        FrameOutcome::Drawn {
            text: string_of(&shown),
            notify_frame: self.on_animation_frame,
            ended,
            notify_end: ended && self.on_animation_end,
        }
    }
}

} // verus!
