//! Progressive scramble-and-resolve animation of a text, one frame at a time.
//!
//! The crate holds the per-character state machine, the step and seed scheduler,
//! the frame renderer and the driver that decides, from the state and a delivered
//! frame, what is shown next. Clocks, sinks and listeners stay with the caller.

pub mod control;
pub mod glyph;
pub mod text;
pub mod config;
pub mod scheduler;
pub mod render;
pub mod session;
pub mod laws;

pub use control::ScrambleControl;
pub use config::{
    default_chance, default_ignore, default_range, default_scramble, default_seed,
    default_speed, default_step, default_tick, ConfigError, RangeFault, RangeOrCharCodes,
    UseScrambleProps,
};
pub use glyph::{draw, get_random_char, random_int};

pub use session::{FrameOutcome, ScrambleText, StartOutcome};
