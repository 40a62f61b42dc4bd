//! Difficulty modes and the keystroke thresholds they allow.

use vstd::prelude::*;
use rand::Rng;
use crate::text::same_text;

verus! {

/// How many key presses one point costs: fixed for the life of the process.
#[derive(Clone, Copy, Debug, PartialEq, Eq, Structural)]
pub enum GameMode {
    /// Every key press scores.
    Test,
    /// Between 1 and 100 key presses per point.
    Normal,
    /// Between 1 and 1000 key presses per point.
    Hard,
}

impl GameMode {
    /// The largest threshold the mode may draw; the smallest is always 1.
    pub open spec fn max_threshold(self) -> u32 {
        match self {
            GameMode::Test => 1,
            GameMode::Normal => 100,
            GameMode::Hard => 1000,
        }
    }

    /// Whether `threshold` lies in the range the mode draws from.
    pub open spec fn permits(self, threshold: u32) -> bool {
        1 <= threshold <= self.max_threshold()
    }

    /// The largest threshold the mode may draw.
    pub fn upper_bound(self) -> (bound: u32)
        ensures
            bound == self.max_threshold(),
    {
        match self {
            GameMode::Test => 1,
            GameMode::Normal => 100,
            GameMode::Hard => 1000,
        }
    }

    /// Tests a candidate threshold against the mode's range.
    pub fn allows(self, threshold: u32) -> (ok: bool)
        ensures
            ok == self.permits(threshold),
    {
        1 <= threshold && threshold <= self.upper_bound()
    }
}

/// A number between `low` and `high`, both included, from
/// `rand::thread_rng().gen_range(low..=high)`. Trusted: `gen_range` answers
/// with a member of the range it is given, and panics only on an empty
/// range, which `low <= high` rules out. Which member comes back is left
/// open: two calls need not agree.
#[verifier::external_body]
fn uniform_inclusive(low: u32, high: u32) -> (drawn: u32)
    requires
        low <= high,
    ensures
        low <= drawn <= high,
{
    rand::thread_rng().gen_range(low..=high)
}

/// Draws the number of key presses that the next point will cost.
pub fn draw_threshold(mode: GameMode) -> (threshold: u32)
    ensures
        mode.permits(threshold),
{
    match mode {
        GameMode::Test => 1,
        GameMode::Normal => uniform_inclusive(1, 100),
        GameMode::Hard => uniform_inclusive(1, 1000),
    }
}

/// The mode that a selector on the command line names, if it names one.
pub open spec fn mode_named(selector: Seq<char>) -> Option<GameMode> {
    if selector == "--test"@ {
        Some(GameMode::Test)
    } else if selector == "--normal"@ {
        Some(GameMode::Normal)
    } else if selector == "--hard"@ {
        Some(GameMode::Hard)
    } else {
        None
    }
}

/// The mode used when no selector is given, or one that names no mode.
pub open spec fn fallback_mode() -> GameMode {
    GameMode::Normal
}

/// Reads a mode selector: `--test`, `--normal` or `--hard`.
pub fn parse_mode(selector: &str) -> (mode: Option<GameMode>)
    ensures
        mode == mode_named(selector@),
{
    if same_text(selector, "--test") {
        Some(GameMode::Test)
    } else if same_text(selector, "--normal") {
        Some(GameMode::Normal)
    } else if same_text(selector, "--hard") {
        Some(GameMode::Hard)
    } else {
        None
    }
}

/// The mode to run in, and whether a selector was given that names none (which
/// calls for a warning, not for an exit).
#[derive(Clone, Copy, Debug, PartialEq, Eq, Structural)]
pub struct ModeChoice {
    pub mode: GameMode,
    pub unrecognized: bool,
}

/// Picks the mode from the optional first argument of the command line.
pub fn select_mode(selector: Option<&str>) -> (choice: ModeChoice)
    ensures
        choice == match selector {
            Some(text) => match mode_named(text@) {
                Some(mode) => ModeChoice { mode, unrecognized: false },
                None => ModeChoice { mode: fallback_mode(), unrecognized: true },
            },
            None => ModeChoice { mode: fallback_mode(), unrecognized: false },
        },
{
    match selector {
        Some(text) => match parse_mode(text) {
            Some(mode) => ModeChoice { mode, unrecognized: false },
            None => ModeChoice { mode: GameMode::Normal, unrecognized: true },
        },
        None => ModeChoice { mode: GameMode::Normal, unrecognized: false },
    }
}

} // verus!
