//! The shared state: the one aggregate that key presses and timer ticks
//! change, always as a whole and always under exclusive access.

use vstd::prelude::*;
use crate::mode::{draw_threshold, GameMode};

verus! {

/// The consecutive trigger presses that start bonus mode.
pub const COMBO_PRESSES: u8 = 3;

/// The score from which on the trigger key counts towards the combo.
pub const COMBO_MIN_SCORE: u32 = 50;

/// The shared state of the counter.
#[derive(Clone, Copy, Debug, PartialEq, Eq, Structural)]
pub struct AppState {
    /// The visible score.
    pub counter: u32,
    /// How many trigger presses in a row have been seen.
    pub backslash_count: u8,
    /// True while the bonus timer owns the counter.
    pub bonus_active: bool,
    /// Key presses gathered towards the next point.
    pub keystroke_buffer: u32,
    /// Key presses that the next point costs.
    pub target_keystrokes: u32,
    /// The difficulty chosen at startup.
    pub mode: GameMode,
}

impl AppState {
    /// What holds of every state that the operations of this crate produce:
    /// the streak is short of a full combo and empty during bonus mode, the
    /// threshold is one the mode may draw, and the buffer has not reached it.
    pub open spec fn wf(self) -> bool {
        &&& self.backslash_count < COMBO_PRESSES
        &&& self.bonus_active ==> self.backslash_count == 0
        &&& self.mode.permits(self.target_keystrokes)
        &&& self.keystroke_buffer < self.target_keystrokes
    }

    /// The state at startup, before any key press.
    pub open spec fn initial(mode: GameMode, counter: u32, target: u32) -> AppState {
        AppState {
            counter,
            backslash_count: 0,
            bonus_active: false,
            keystroke_buffer: 0,
            target_keystrokes: target,
            mode,
        }
    }

    /// Tests all that `wf` asks.
    pub fn is_valid(&self) -> (ok: bool)
        ensures
            ok == self.wf(),
    {
        self.backslash_count < COMBO_PRESSES && (!self.bonus_active || self.backslash_count == 0)
            && self.mode.allows(self.target_keystrokes) && self.keystroke_buffer
            < self.target_keystrokes
    }

    /// A fresh state with the given score, its first threshold drawn from
    /// the mode's range.
    pub fn start(mode: GameMode, counter: u32) -> (state: AppState)
        ensures
            state.wf(),
            exists|target: u32|
                mode.permits(target) && state == #[trigger] AppState::initial(
                    mode,
                    counter,
                    target,
                ),
    {
        let target: u32 = draw_threshold(mode);
        let state = AppState {
            counter,
            backslash_count: 0,
            bonus_active: false,
            keystroke_buffer: 0,
            target_keystrokes: target,
            mode,
        };
        assert(state == AppState::initial(mode, counter, target));
        state
    }

    /// A fresh state with a threshold chosen by the caller: `None` when the
    /// mode does not permit that threshold.
    pub fn with_target(mode: GameMode, counter: u32, target: u32) -> (state: Option<AppState>)
        ensures
            state == if mode.permits(target) {
                Some(AppState::initial(mode, counter, target))
            } else {
                None::<AppState>
            },
            state is Some ==> state->0.wf(),
    {
        if mode.allows(target) {
            Some(
                AppState {
                    counter,
                    backslash_count: 0,
                    bonus_active: false,
                    keystroke_buffer: 0,
                    target_keystrokes: target,
                    mode,
                },
            )
        } else {
            None
        }
    }

    /// Accepts a state assembled field by field if it is well formed.
    pub fn checked(self) -> (state: Option<AppState>)
        ensures
            state == if self.wf() {
                Some(self)
            } else {
                None::<AppState>
            },
    {
        if self.is_valid() {
            Some(self)
        } else {
            None
        }
    }

    /// The label that the sink should show for this state.
    pub fn status(&self) -> (label: crate::effect::StatusLabel)
        ensures
            label == crate::effect::StatusLabel::of_bonus(self.bonus_active),
    {
        crate::effect::StatusLabel::for_bonus(self.bonus_active)
    }
}

} // verus!
