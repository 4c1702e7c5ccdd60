//! The parameters of an animation and their validation.

use vstd::prelude::*;
use vstd::string::*;
use crate::glyph::{is_scalar_value, scalar_value};

verus! {

/// Speed and chance are fractions of one, held in millionths.
pub const UNIT: i32 = 1_000_000;

/// Where substitute glyphs come from: a range of code points, both ends included,
/// or an explicit set of code points.
#[derive(Clone, Debug)]
pub enum RangeOrCharCodes {
    Range(i32, i32),
    Codes(Vec<i32>),
}

/// What is wrong with a glyph source.
#[derive(Clone, Copy, Debug, PartialEq, Eq, Structural)]
pub enum RangeFault {
    /// The range starts below zero or ends before it starts.
    Bounds,
    /// An end of the range is no Unicode scalar value.
    Scalar,
    /// The set of codes is empty.
    Empty,
    /// A code of the set is no Unicode scalar value.
    CodeScalar,
}

/// The field that made a configuration unacceptable.
#[derive(Clone, Copy, Debug, PartialEq, Eq, Structural)]
pub enum ConfigError {
    Speed,
    Tick,
    Step,
    Chance,
    Seed,
    Scramble,
    Range(RangeFault),
}

/// The parameters of an animation.
#[derive(Clone, Debug)]
pub struct UseScrambleProps {
    /// Whether the animation plays as soon as a text is there.
    pub play_on_mount: Option<bool>,
    /// The text to animate.
    pub text: String,
    /// Millionths of full speed, 0 to `UNIT`; full speed redraws 60 times a second
    /// and 0 pauses.
    pub speed: i32,
    /// Frames between two steps of the wave; at least 1.
    pub tick: i32,
    /// Characters that the wave takes at each step; at least 1.
    pub step: i32,
    /// Chance that a character is scrambled, in millionths, 0 to `UNIT`.
    pub chance: i32,
    /// Characters ahead of the wave that are armed at each step; not negative.
    pub seed: i32,
    /// Frames for which a character stays scrambled; not negative.
    pub scramble: i32,
    /// Characters that are always shown as they are.
    pub ignore: Vec<char>,
    /// Where substitute glyphs come from.
    pub range: RangeOrCharCodes,
    /// Show the mask instead of random glyphs.
    pub overdrive: bool,
    /// Keep the table of the last run when the animation starts; without it every
    /// run starts from a blank table.
    pub overflow: bool,
    /// Whether pointing at the text replays the animation.
    pub hover_replay: bool,
}

pub fn default_speed() -> (r: i32)
    ensures
        r == UNIT,
{
    UNIT
}

pub fn default_tick() -> (r: i32)
    ensures
        r == 1,
{
    1
}

pub fn default_step() -> (r: i32)
    ensures
        r == 1,
{
    1
}

pub fn default_chance() -> (r: i32)
    ensures
        r == UNIT,
{
    UNIT
}

pub fn default_seed() -> (r: i32)
    ensures
        r == 1,
{
    1
}

pub fn default_scramble() -> (r: i32)
    ensures
        r == 1,
{
    1
}

pub fn default_ignore() -> (r: Vec<char>)
    ensures
        r@ == seq![' '],
{
    let mut r: Vec<char> = Vec::new();
    r.push(' ');
    assert(r@ =~= seq![' ']);
    r
}

pub fn default_range() -> (r: RangeOrCharCodes)
    ensures
        r == RangeOrCharCodes::Range(65, 125),
{
    RangeOrCharCodes::Range(65, 125)
}

impl RangeOrCharCodes {
    /// Some code of the set is no scalar value.
    pub open spec fn bad_code(codes: Seq<i32>) -> bool {
        exists|i: int| 0 <= i < codes.len() && !is_scalar_value(#[trigger] codes[i] as int)
    }

    /// What is wrong with this source, if anything.
    pub open spec fn fault(self) -> Option<RangeFault> {
        match self {
            RangeOrCharCodes::Range(min, max) => {
                if min < 0 || max < min {
                    Some(RangeFault::Bounds)
                } else if !is_scalar_value(min as int) || !is_scalar_value(max as int) {
                    Some(RangeFault::Scalar)
                } else {
                    None
                }
            },
            RangeOrCharCodes::Codes(codes) => {
                if codes@.len() == 0 {
                    Some(RangeFault::Empty)
                } else if Self::bad_code(codes@) {
                    Some(RangeFault::CodeScalar)
                } else {
                    None
                }
            },
        }
    }

    /// Whether every code of a set is a scalar value.
    pub fn all_scalar(codes: &Vec<i32>) -> (r: bool)
        ensures
            r == !Self::bad_code(codes@),
    {
        let mut i: usize = 0;
        while i < codes.len()
            invariant
                i <= codes.len(),
                forall|k: int| 0 <= k < i ==> is_scalar_value(#[trigger] codes@[k] as int),
            decreases codes.len() - i,
        {
            if !scalar_value(codes[i]) {
                return false;
            }
            i += 1;
        }
        true
    }

    /// Finds what is wrong with this source.
    pub fn check(&self) -> (r: Option<RangeFault>)
        ensures
            r == self.fault(),
    {
        match self {
            RangeOrCharCodes::Range(min, max) => {
                if *min < 0 || *max < *min {
                    Some(RangeFault::Bounds)
                } else if !scalar_value(*min) || !scalar_value(*max) {
                    Some(RangeFault::Scalar)
                } else {
                    None
                }
            },
            RangeOrCharCodes::Codes(codes) => {
                if codes.len() == 0 {
                    Some(RangeFault::Empty)
                } else if !Self::all_scalar(codes) {
                    Some(RangeFault::CodeScalar)
                } else {
                    None
                }
            },
        }
    }
}

impl ConfigError {
    /// The sentence that describes the fault.
    pub open spec fn text(self) -> Seq<char> {
        match self {
            ConfigError::Speed => "Speed must be between 0 and 1"@,
            ConfigError::Tick => "Tick must be greater than 0"@,
            ConfigError::Step => "Step must be greater than 0"@,
            ConfigError::Chance => "Chance must be between 0 and 1"@,
            ConfigError::Seed => "Seed must be greater than or equal to 0"@,
            ConfigError::Scramble => "Scramble must be greater than or equal to 0"@,
            ConfigError::Range(RangeFault::Bounds) => "Invalid range values"@,
            ConfigError::Range(RangeFault::Scalar) =>
                "Range values must be valid Unicode scalar values"@,
            ConfigError::Range(RangeFault::Empty) => "Codes vector cannot be empty"@,
            ConfigError::Range(RangeFault::CodeScalar) =>
                "All codes must be valid Unicode scalar values"@,
        }
    }

    /// The sentence that describes the fault.
    pub fn message(&self) -> (s: String)
        ensures
            s@ == self.text(),
    {
        match self {
            ConfigError::Speed => String::from_str("Speed must be between 0 and 1"),
            ConfigError::Tick => String::from_str("Tick must be greater than 0"),
            ConfigError::Step => String::from_str("Step must be greater than 0"),
            ConfigError::Chance => String::from_str("Chance must be between 0 and 1"),
            ConfigError::Seed => String::from_str("Seed must be greater than or equal to 0"),
            ConfigError::Scramble => String::from_str(
                "Scramble must be greater than or equal to 0",
            ),
            ConfigError::Range(RangeFault::Bounds) => String::from_str("Invalid range values"),
            ConfigError::Range(RangeFault::Scalar) => String::from_str(
                "Range values must be valid Unicode scalar values",
            ),
            ConfigError::Range(RangeFault::Empty) => String::from_str(
                "Codes vector cannot be empty",
            ),
            ConfigError::Range(RangeFault::CodeScalar) => String::from_str(
                "All codes must be valid Unicode scalar values",
            ),
        }
    }
}

impl UseScrambleProps {
    /// The first field that breaks its constraint, in the order speed, tick, step,
    /// chance, seed, scramble, range.
    pub open spec fn first_fault(self) -> Option<ConfigError> {
        if !(0 <= self.speed <= UNIT) {
            Some(ConfigError::Speed)
        } else if self.tick <= 0 {
            Some(ConfigError::Tick)
        } else if self.step <= 0 {
            Some(ConfigError::Step)
        } else if !(0 <= self.chance <= UNIT) {
            Some(ConfigError::Chance)
        } else if self.seed < 0 {
            Some(ConfigError::Seed)
        } else if self.scramble < 0 {
            Some(ConfigError::Scramble)
        } else {
            match self.range.fault() {
                Some(fault) => Some(ConfigError::Range(fault)),
                None => None,
            }
        }
    }

    /// Every field keeps its constraint.
    pub open spec fn is_valid(self) -> bool {
        self.first_fault().is_none()
    }

    /// Finds the first field that breaks its constraint.
    pub fn check(&self) -> (r: Result<(), ConfigError>)
        ensures
            r is Ok <==> self.is_valid(),
            r matches Err(e) ==> self.first_fault() == Some(e),
    {
        if self.speed < 0 || self.speed > UNIT {
            return Err(ConfigError::Speed);
        }
        if self.tick <= 0 {
            return Err(ConfigError::Tick);
        }
        if self.step <= 0 {
            return Err(ConfigError::Step);
        }
        if self.chance < 0 || self.chance > UNIT {
            return Err(ConfigError::Chance);
        }
        if self.seed < 0 {
            return Err(ConfigError::Seed);
        }
        if self.scramble < 0 {
            return Err(ConfigError::Scramble);
        }
        match self.range.check() {
            Some(fault) => Err(ConfigError::Range(fault)),
            None => Ok(()),
        }
    }

    /// Accepts the parameters as a whole or names, in a sentence, the first field
    /// that breaks its constraint. Nothing is clamped.
    pub fn validate(&self) -> (r: Result<(), String>)
        ensures
            r is Ok <==> self.is_valid(),
            r matches Err(s) ==> self.first_fault() matches Some(e) && s@ == e.text(),
    {
        match self.check() {
            Ok(()) => Ok(()),
            Err(e) => Err(e.message()),
        }
    }

    /// Every field has its default, around `text` and the two flags in which the
    /// presets differ.
    pub open spec fn is_preset(self, text: Seq<char>, overdrive: bool, overflow: bool) -> bool {
        &&& self.play_on_mount.is_none()
        &&& self.text@ == text
        &&& self.speed == UNIT
        &&& self.tick == 1
        &&& self.step == 1
        &&& self.chance == UNIT
        &&& self.seed == 1
        &&& self.scramble == 1
        &&& self.ignore@ == seq![' ']
        &&& self.range == RangeOrCharCodes::Range(65, 125)
        &&& self.overdrive == overdrive
        &&& self.overflow == overflow
        &&& !self.hover_replay
    }

    /// The parameters of the element interface around `text`: a run starts from a
    /// blank table and shows random glyphs.
    pub fn with_text(text: String) -> (r: Self)
        ensures
            r.is_preset(text@, false, false),
            r.is_valid(),
    {
        Self::build(text, false, false)
    }

    /// The parameters of the lower-level interface around `text`: a run keeps the
    /// table of the last one and shows the mask.
    pub fn lower_level(text: String) -> (r: Self)
        ensures
            r.is_preset(text@, true, true),
            r.is_valid(),
    {
        Self::build(text, true, true)
    }

    fn build(text: String, overdrive: bool, overflow: bool) -> (r: Self)
        ensures
            r.is_preset(text@, overdrive, overflow),
            r.is_valid(),
    {
        UseScrambleProps {
            play_on_mount: None,
            text,
            speed: default_speed(),
            tick: default_tick(),
            step: default_step(),
            chance: default_chance(),
            seed: default_seed(),
            scramble: default_scramble(),
            ignore: default_ignore(),
            range: default_range(),
            overdrive,
            overflow,
            hover_replay: false,
        }
    }
}

impl Default for UseScrambleProps {
    /// The parameters of the element interface around an empty text.
    fn default() -> (r: Self)
        ensures
            r.is_preset(Seq::<char>::empty(), false, false),
            r.is_valid(),
    {
        UseScrambleProps::with_text(String::new())
    }
}

} // verus!
