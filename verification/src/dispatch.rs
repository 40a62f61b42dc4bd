//! The dispatcher: what one key press does to the shared state, and what it
//! asks of the world outside.

use vstd::prelude::*;
use crate::audio::{AudioCommand, CommandView, SoundId};
use crate::effect::{Effect, EffectView, OnFailure, Reaction, ReactionView, StatusLabel};
use crate::keys::{escape_code, trigger_code, ESCAPE_KEY, TRIGGER_KEY};
use crate::mode::draw_threshold;
use crate::state::{AppState, COMBO_MIN_SCORE, COMBO_PRESSES};

verus! {

/// The four ways in which the dispatcher treats a key press.
#[derive(Clone, Copy, Debug, PartialEq, Eq, Structural)]
pub enum KeyClass {
    /// The Escape key: silences playback, whatever the state.
    Escape,
    /// Any other key while bonus mode runs: nothing happens.
    Ignored,
    /// The trigger key at a score high enough for the combo: one more press
    /// of the combo.
    Combo,
    /// Every other press: breaks the combo and counts towards the next point.
    Counted,
}

/// How a key press is treated in a given state.
pub open spec fn classify(state: AppState, key: u16) -> KeyClass {
    if key == ESCAPE_KEY {
        KeyClass::Escape
    } else if state.bonus_active {
        KeyClass::Ignored
    } else if key == TRIGGER_KEY && state.counter >= COMBO_MIN_SCORE {
        KeyClass::Combo
    } else {
        KeyClass::Counted
    }
}

/// Whether the press completes the combo and so starts bonus mode.
pub open spec fn starts_bonus(state: AppState, key: u16) -> bool {
    classify(state, key) == KeyClass::Combo && state.backslash_count + 1 >= COMBO_PRESSES
}

/// Whether the press fills the buffer and so scores a point.
pub open spec fn scores(state: AppState, key: u16) -> bool {
    classify(state, key) == KeyClass::Counted && state.keystroke_buffer + 1
        >= state.target_keystrokes
}

/// The state after a key press. `redraw` is the threshold drawn for the next
/// point; it is taken up only by a press that scores.
pub open spec fn next_state(state: AppState, key: u16, redraw: u32) -> AppState {
    match classify(state, key) {
        KeyClass::Escape | KeyClass::Ignored => state,
        KeyClass::Combo => if starts_bonus(state, key) {
            AppState { bonus_active: true, backslash_count: 0, ..state }
        } else {
            AppState { backslash_count: (state.backslash_count + 1) as u8, ..state }
        },
        KeyClass::Counted => if scores(state, key) {
            AppState {
                backslash_count: 0,
                keystroke_buffer: 0,
                counter: (state.counter + 1) as u32,
                target_keystrokes: redraw,
                ..state
            }
        } else {
            AppState {
                backslash_count: 0,
                keystroke_buffer: (state.keystroke_buffer + 1) as u32,
                ..state
            }
        },
    }
}

/// The effects of a key press, in the order in which they are carried out:
/// what is persisted comes before the sound that announces it.
pub open spec fn key_effects(state: AppState, key: u16) -> Seq<EffectView> {
    match classify(state, key) {
        KeyClass::Escape => seq![EffectView::Enqueue(CommandView::Stop)],
        KeyClass::Ignored => seq![],
        KeyClass::Combo => if starts_bonus(state, key) {
            seq![
                EffectView::PersistStatus(StatusLabel::SuperChargeFlash),
                EffectView::Enqueue(
                    CommandView::PlayAndLoop {
                        intro: SoundId::BonusIntro,
                        looping: SoundId::BonusLoop,
                    },
                ),
                EffectView::StartBonusTimer,
            ]
        } else {
            seq![]
        },
        KeyClass::Counted => if scores(state, key) {
            seq![
                EffectView::PersistCounter((state.counter + 1) as u32),
                EffectView::Enqueue(CommandView::Play(seq![SoundId::Increment])),
            ]
        } else {
            seq![]
        },
    }
}

/// The outward side of a key press. An effect that fails ends the dispatch:
/// the effects after it are dropped, the state stays as changed.
pub open spec fn key_reaction(state: AppState, key: u16) -> ReactionView {
    ReactionView { effects: key_effects(state, key), on_failure: OnFailure::Abort }
}

/// Says how the dispatcher will treat a key press.
pub fn classify_key(state: &AppState, key_code: u16) -> (class: KeyClass)
    ensures
        class == classify(*state, key_code),
{
    if key_code == escape_code() {
        KeyClass::Escape
    } else if state.bonus_active {
        KeyClass::Ignored
    } else if key_code == trigger_code() && state.counter >= COMBO_MIN_SCORE {
        KeyClass::Combo
    } else {
        KeyClass::Counted
    }
}

/// Says whether a key press will score a point, and so call for a new
/// threshold.
pub fn will_score(state: &AppState, key_code: u16) -> (yes: bool)
    requires
        state.wf(),
    ensures
        yes == scores(*state, key_code),
{
    match classify_key(state, key_code) {
        KeyClass::Counted => state.keystroke_buffer + 1 >= state.target_keystrokes,
        _ => false,
    }
}

/// Applies one key press to the state, with the threshold for the next point
/// supplied by the caller, and returns what is to be done about it.
///
/// If the press scores, the score must have room for one more point and
/// `redraw` must be a threshold that the mode permits; otherwise `redraw` is
/// not looked at.
pub fn apply_key_event(key_code: u16, state: &mut AppState, redraw: u32) -> (reaction: Reaction)
    requires
        old(state).wf(),
        scores(*old(state), key_code) ==> old(state).mode.permits(redraw) && old(state).counter
            < u32::MAX,
    ensures
        *final(state) == next_state(*old(state), key_code, redraw),
        reaction@ == key_reaction(*old(state), key_code),
        final(state).wf(),
{
    let mut effects: Vec<Effect> = Vec::new();
    match classify_key(state, key_code) {
        KeyClass::Escape => {
            effects.push(Effect::Enqueue(AudioCommand::Stop));
        },
        KeyClass::Ignored => {},
        KeyClass::Combo => {
            state.backslash_count = state.backslash_count + 1;
            if state.backslash_count >= COMBO_PRESSES {
                state.bonus_active = true;
                state.backslash_count = 0;
                effects.push(Effect::PersistStatus(StatusLabel::SuperChargeFlash));
                effects.push(
                    Effect::Enqueue(
                        AudioCommand::PlayAndLoop {
                            intro: SoundId::BonusIntro,
                            looping: SoundId::BonusLoop,
                        },
                    ),
                );
                effects.push(Effect::StartBonusTimer);
            }
        },
        KeyClass::Counted => {
            state.backslash_count = 0;
            state.keystroke_buffer = state.keystroke_buffer + 1;
            if state.keystroke_buffer >= state.target_keystrokes {
                state.keystroke_buffer = 0;
                state.counter = state.counter + 1;
                state.target_keystrokes = redraw;
                let mut sounds: Vec<SoundId> = Vec::new();
                sounds.push(SoundId::Increment);
                effects.push(Effect::PersistCounter(state.counter));
                effects.push(Effect::Enqueue(AudioCommand::Play(sounds)));
            }
        },
    }
    let reaction = Reaction { effects, on_failure: OnFailure::Abort };
    assert(reaction@.effects =~= key_effects(*old(state), key_code));
    reaction
}

/// Handles one key press: classifies it, changes the state, draws a new
/// threshold if the press scored, and returns what is to be done about it.
///
/// The score must have room for one more point if the press scores one.
pub fn process_key_event(key_code: u16, state: &mut AppState) -> (reaction: Reaction)
    requires
        old(state).wf(),
        scores(*old(state), key_code) ==> old(state).counter < u32::MAX,
    ensures
        exists|redraw: u32|
            old(state).mode.permits(redraw) && *final(state) == #[trigger] next_state(
                *old(state),
                key_code,
                redraw,
            ),
        !scores(*old(state), key_code) ==> *final(state) == next_state(
            *old(state),
            key_code,
            old(state).target_keystrokes,
        ),
        reaction@ == key_reaction(*old(state), key_code),
        final(state).wf(),
{
    let redraw: u32 = if will_score(state, key_code) {
        draw_threshold(state.mode)
    } else {
        state.target_keystrokes
    };
    apply_key_event(key_code, state, redraw)
}

} // verus!
