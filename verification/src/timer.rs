//! The bonus timer: once bonus mode has started it takes one point off the
//! score at every tick, and ends bonus mode at the tick that finds the score
//! at zero.

use vstd::prelude::*;
use crate::audio::{AudioCommand, CommandView};
use crate::effect::{
    count_enqueued, lemma_count_concat, lemma_count_short, Effect, EffectView, OnFailure, Reaction, ReactionView, StatusLabel,
};
use crate::state::AppState;

verus! {

/// Whether a tick in this state is the timer's last.
pub open spec fn tick_finishes(state: AppState) -> bool {
    state.counter == 0
}

/// The state after one tick.
pub open spec fn tick_state(state: AppState) -> AppState {
    if state.counter > 0 {
        AppState { counter: (state.counter - 1) as u32, ..state }
    } else {
        AppState { bonus_active: false, ..state }
    }
}

/// The effects of one tick, in the order in which they are carried out.
pub open spec fn tick_effects(state: AppState) -> Seq<EffectView> {
    if state.counter > 0 {
        seq![EffectView::PersistCounter((state.counter - 1) as u32)]
    } else {
        seq![
            EffectView::PersistStatus(StatusLabel::Flashing),
            EffectView::Enqueue(CommandView::Stop),
        ]
    }
}

/// The outward side of one tick. An effect that fails is noted and does not
/// hold up the timer.
pub open spec fn tick_reaction(state: AppState) -> ReactionView {
    ReactionView { effects: tick_effects(state), on_failure: OnFailure::Continue }
}

/// What one tick of the bonus timer leaves for its caller.
#[derive(Clone, Debug, PartialEq, Eq)]
pub struct Tick {
    /// What is to be done about the tick.
    pub reaction: Reaction,
    /// True when the timer is done and must not tick again.
    pub finished: bool,
}

/// One tick of the bonus timer: takes a point off a positive score, or ends
/// bonus mode at a score of zero.
pub fn timer_tick(state: &mut AppState) -> (tick: Tick)
    ensures
        *final(state) == tick_state(*old(state)),
        tick.reaction@ == tick_reaction(*old(state)),
        tick.finished == tick_finishes(*old(state)),
        old(state).wf() ==> final(state).wf(),
{
    let mut effects: Vec<Effect> = Vec::new();
    let finished: bool;
    if state.counter > 0 {
        state.counter = state.counter - 1;
        effects.push(Effect::PersistCounter(state.counter));
        finished = false;
    } else {
        state.bonus_active = false;
        effects.push(Effect::PersistStatus(StatusLabel::Flashing));
        effects.push(Effect::Enqueue(AudioCommand::Stop));
        finished = true;
    }
    let reaction = Reaction { effects, on_failure: OnFailure::Continue };
    assert(reaction@.effects =~= tick_effects(*old(state)));
    Tick { reaction, finished }
}

/// The state after `n` ticks in a row.
pub open spec fn after_ticks(state: AppState, n: nat) -> AppState
    decreases n,
{
    if n == 0 {
        state
    } else {
        tick_state(after_ticks(state, (n - 1) as nat))
    }
}

/// While the score lasts, every tick takes exactly one point off it and
/// touches nothing else: after `n` ticks, `n` no greater than the score, the
/// score is down by `n`. Such a tick persists the new score, puts nothing on
/// the audio bus, and is not the last.
pub proof fn lemma_ticks_count_down(state: AppState, n: nat)
    requires
        n <= state.counter,
    ensures
        after_ticks(state, n) == (AppState { counter: (state.counter - n) as u32, ..state }),
        n < state.counter ==> {
            let before = after_ticks(state, n);
            &&& !tick_finishes(before)
            &&& tick_effects(before) == seq![
                EffectView::PersistCounter((state.counter - n - 1) as u32),
            ]
            &&& tick_reaction(before).enqueued() == 0
        },
    decreases n,
{
    if n > 0 {
        lemma_ticks_count_down(state, (n - 1) as nat);
    }
    if n < state.counter {
        let effects = tick_effects(after_ticks(state, n));
        let persist = EffectView::PersistCounter((state.counter - n - 1) as u32);
        lemma_count_short(persist, persist, persist);
        assert(effects == seq![persist]);
    }
}

/// The timer never takes the score below zero and stops exactly once: the
/// tick that follows as many ticks as the score had points finds the score at
/// zero, leaves it there, clears the bonus flag, restores the normal status
/// label and puts exactly one command on the audio bus, which is `Stop`.
pub proof fn lemma_countdown_ends(state: AppState)
    ensures
        ({
            let last = after_ticks(state, state.counter as nat);
            &&& last.counter == 0
            &&& tick_finishes(last)
            &&& tick_state(last) == (AppState { counter: 0, bonus_active: false, ..state })
            &&& tick_effects(last) == seq![
                EffectView::PersistStatus(StatusLabel::Flashing),
                EffectView::Enqueue(CommandView::Stop),
            ]
            &&& tick_reaction(last).enqueued() == 1
        }),
{
    lemma_ticks_count_down(state, state.counter as nat);
    let last = after_ticks(state, state.counter as nat);
    let effects = tick_effects(last);
    let status = EffectView::PersistStatus(StatusLabel::Flashing);
    let stop = EffectView::Enqueue(CommandView::Stop);
    lemma_count_short(status, stop, stop);
    assert(effects == seq![status, stop]);
}

/// The effects of `n` ticks in a row, in the order in which they arise.
pub open spec fn effects_of_ticks(state: AppState, n: nat) -> Seq<EffectView>
    decreases n,
{
    if n == 0 {
        seq![]
    } else {
        effects_of_ticks(state, (n - 1) as nat) + tick_effects(
            after_ticks(state, (n - 1) as nat),
        )
    }
}

/// As long as the score lasts the timer puts nothing on the audio bus.
pub proof fn lemma_countdown_is_silent(state: AppState, n: nat)
    requires
        n <= state.counter,
    ensures
        count_enqueued(effects_of_ticks(state, n)) == 0,
        effects_of_ticks(state, n).len() == n,
    decreases n,
{
    if n > 0 {
        let earlier = (n - 1) as nat;
        lemma_countdown_is_silent(state, earlier);
        lemma_ticks_count_down(state, earlier);
        lemma_count_concat(
            effects_of_ticks(state, earlier),
            tick_effects(after_ticks(state, earlier)),
        );
    }
}

/// A whole countdown, from the first tick to the one that finishes, takes
/// one tick more than the score had points, ends at a score of zero with the
/// bonus flag cleared and all else untouched, and puts exactly one command
/// on the audio bus.
pub proof fn lemma_whole_countdown(state: AppState)
    ensures
        ({
            let ticks = (state.counter + 1) as nat;
            &&& after_ticks(state, ticks) == (AppState {
                counter: 0,
                bonus_active: false,
                ..state
            })
            &&& tick_finishes(after_ticks(state, state.counter as nat))
            &&& forall|n: nat| n < state.counter ==> !tick_finishes(#[trigger] after_ticks(state, n))
            &&& count_enqueued(effects_of_ticks(state, ticks)) == 1
        }),
{
    let points = state.counter as nat;
    lemma_countdown_ends(state);
    lemma_countdown_is_silent(state, points);
    lemma_count_concat(effects_of_ticks(state, points), tick_effects(after_ticks(state, points)));
    assert forall|n: nat| n < state.counter implies !tick_finishes(
        #[trigger] after_ticks(state, n),
    ) by {
        lemma_ticks_count_down(state, n);
    }
}

} // verus!
