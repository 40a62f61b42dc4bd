//! What holds of the dispatcher over one key press and over whole sequences
//! of key presses.

use vstd::prelude::*;
use crate::audio::{CommandView, SoundId};
use crate::dispatch::{classify, key_effects, key_reaction, next_state, KeyClass};
use crate::effect::{count_enqueued, lemma_count_short, EffectView, StatusLabel};
use crate::keys::{ESCAPE_KEY, TRIGGER_KEY};
use crate::mode::GameMode;
use crate::state::{AppState, COMBO_MIN_SCORE};

verus! {

/// The state after the key presses `keys`, one after the other. `draws[i]` is
/// the threshold on offer at press `i`, taken up only if that press scores.
pub open spec fn after_keys(state: AppState, keys: Seq<u16>, draws: Seq<u32>) -> AppState
    decreases keys.len(),
{
    if keys.len() == 0 {
        state
    } else {
        next_state(
            after_keys(state, keys.drop_last(), draws.drop_last()),
            keys.last(),
            draws.last(),
        )
    }
}

/// The effects of the key presses `keys`, in the order in which they arise.
pub open spec fn effects_of_keys(state: AppState, keys: Seq<u16>, draws: Seq<u32>) -> Seq<
    EffectView,
>
    decreases keys.len(),
{
    if keys.len() == 0 {
        seq![]
    } else {
        effects_of_keys(state, keys.drop_last(), draws.drop_last()) + key_effects(
            after_keys(state, keys.drop_last(), draws.drop_last()),
            keys.last(),
        )
    }
}

/// The state in which press `i` of a sequence finds the counter.
pub open spec fn state_before(state: AppState, keys: Seq<u16>, draws: Seq<u32>, i: int) -> AppState {
    after_keys(state, keys.take(i), draws.take(i))
}

/// A key that is neither Escape nor the trigger.
pub open spec fn plain_key(key: u16) -> bool {
    key != ESCAPE_KEY && key != TRIGGER_KEY
}

/// What a counted press makes of state `before`: the streak is broken; the
/// press that fills the buffer empties it, adds exactly one point and takes
/// up the new threshold; any other press adds one to the buffer and leaves
/// score and threshold alone.
pub open spec fn counted_step(before: AppState, after: AppState, draw: u32) -> bool {
    if before.keystroke_buffer + 1 >= before.target_keystrokes {
        after == (AppState {
            counter: (before.counter + 1) as u32,
            keystroke_buffer: 0,
            target_keystrokes: draw,
            backslash_count: 0,
            ..before
        })
    } else {
        after == (AppState {
            keystroke_buffer: (before.keystroke_buffer + 1) as u32,
            backslash_count: 0,
            ..before
        })
    }
}

/// Escape puts exactly one command on the audio bus, `Stop`, in every state,
/// and changes nothing in the state: not the score, not the streak, not the
/// bonus flag.
pub proof fn lemma_escape_only_stops_audio(state: AppState, redraw: u32)
    ensures
        next_state(state, ESCAPE_KEY, redraw) == state,
        key_effects(state, ESCAPE_KEY) == seq![EffectView::Enqueue(CommandView::Stop)],
        key_reaction(state, ESCAPE_KEY).enqueued() == 1,
{
    let stop = EffectView::Enqueue(CommandView::Stop);
    lemma_count_short(stop, stop, stop);
}

/// While bonus mode runs no key changes the state, and no key but Escape has
/// any effect.
pub proof fn lemma_bonus_ignores_keys(state: AppState, key: u16, redraw: u32)
    requires
        state.bonus_active,
    ensures
        next_state(state, key, redraw) == state,
        key != ESCAPE_KEY ==> key_effects(state, key) == Seq::<EffectView>::empty(),
{
}

/// The bonus timer is started only by a key press that finds bonus mode off
/// and turns it on, so no second timer is started while one runs.
pub proof fn lemma_timer_starts_with_bonus(state: AppState, key: u16, redraw: u32)
    ensures
        key_effects(state, key).contains(EffectView::StartBonusTimer) ==> !state.bonus_active
            && next_state(state, key, redraw).bonus_active,
        state.bonus_active ==> !key_effects(state, key).contains(EffectView::StartBonusTimer),
        !state.bonus_active && next_state(state, key, redraw).bonus_active ==> key_effects(
            state,
            key,
        ).contains(EffectView::StartBonusTimer),
        next_state(state, key, redraw).mode == state.mode,
{
    let effects = key_effects(state, key);
    if effects.contains(EffectView::StartBonusTimer) {
        let at = choose|i: int| 0 <= i < effects.len() && effects[i] == EffectView::StartBonusTimer;
        assert(effects[at] == EffectView::StartBonusTimer);
    }
    if !state.bonus_active && next_state(state, key, redraw).bonus_active {
        assert(effects[2] == EffectView::StartBonusTimer);
    }
}

/// The streak of trigger presses grows only by a trigger press at a score
/// high enough for the combo, and then by exactly one; at a lower score the
/// trigger key does not add to it; and every key other than the trigger and
/// Escape leaves it at zero, whatever the score.
pub proof fn lemma_streak_rules(state: AppState, key: u16, redraw: u32)
    requires
        state.wf(),
    ensures
        ({
            let next = next_state(state, key, redraw);
            &&& next.backslash_count > state.backslash_count ==> key == TRIGGER_KEY
                && state.counter >= COMBO_MIN_SCORE && next.backslash_count == state.backslash_count
                + 1
            &&& key == TRIGGER_KEY && state.counter < COMBO_MIN_SCORE ==> next.backslash_count == 0
            &&& key != TRIGGER_KEY && key != ESCAPE_KEY ==> next.backslash_count == 0
        }),
{
}

/// A press that is counted adds exactly one point when it fills the buffer,
/// and then the threshold is the one just drawn, within the mode's range;
/// otherwise score and threshold stay. The point is persisted before its
/// sound is put on the audio bus.
pub proof fn lemma_counted_press(state: AppState, key: u16, redraw: u32)
    requires
        state.wf(),
        state.mode.permits(redraw),
        classify(state, key) == KeyClass::Counted,
        state.counter < u32::MAX,
    ensures
        counted_step(state, next_state(state, key, redraw), redraw),
        next_state(state, key, redraw).wf(),
        state.mode.permits(next_state(state, key, redraw).target_keystrokes),
        key_effects(state, key) == if state.keystroke_buffer + 1 == state.target_keystrokes {
            seq![
                EffectView::PersistCounter((state.counter + 1) as u32),
                EffectView::Enqueue(CommandView::Play(seq![SoundId::Increment])),
            ]
        } else {
            Seq::<EffectView>::empty()
        },
{
}

/// Press `i` of a sequence takes the state it finds to the state that press
/// `i + 1` finds.
pub proof fn lemma_state_before_next(state: AppState, keys: Seq<u16>, draws: Seq<u32>, i: int)
    requires
        keys.len() == draws.len(),
        0 <= i < keys.len(),
    ensures
        state_before(state, keys, draws, i + 1) == next_state(
            state_before(state, keys, draws, i),
            keys[i],
            draws[i],
        ),
        state_before(state, keys, draws, 0) == state,
        state_before(state, keys, draws, keys.len() as int) == after_keys(state, keys, draws),
{
    assert(keys.take(i + 1).drop_last() =~= keys.take(i));
    assert(draws.take(i + 1).drop_last() =~= draws.take(i));
    assert(keys.take(0).len() == 0);
    assert(keys.take(keys.len() as int) =~= keys);
    assert(draws.take(keys.len() as int) =~= draws);
}

/// Plain key presses outside bonus mode keep the state well formed and
/// outside bonus mode, and add at most one point each.
pub proof fn lemma_plain_keys_keep_order(
    state: AppState,
    keys: Seq<u16>,
    draws: Seq<u32>,
    i: int,
)
    requires
        state.wf(),
        !state.bonus_active,
        keys.len() == draws.len(),
        state.counter + keys.len() <= u32::MAX,
        forall|j: int| 0 <= j < keys.len() ==> plain_key(#[trigger] keys[j]),
        forall|j: int| 0 <= j < draws.len() ==> state.mode.permits(#[trigger] draws[j]),
        0 <= i <= keys.len(),
    ensures
        state_before(state, keys, draws, i).wf(),
        !state_before(state, keys, draws, i).bonus_active,
        state_before(state, keys, draws, i).mode == state.mode,
        state.counter <= state_before(state, keys, draws, i).counter <= state.counter + i,
    decreases i,
{
    if i > 0 {
        lemma_plain_keys_keep_order(state, keys, draws, i - 1);
        lemma_state_before_next(state, keys, draws, i - 1);
        assert(plain_key(keys[i - 1]));
        assert(state.mode.permits(draws[i - 1]));
        lemma_counted_press(state_before(state, keys, draws, i - 1), keys[i - 1], draws[i - 1]);
    } else {
        assert(keys.take(0).len() == 0);
    }
}

/// For every sequence of plain key presses outside bonus mode, each press is
/// a counted step from the state it finds: the score goes up by exactly one
/// at every press that fills the buffer, the threshold is redrawn within the
/// mode's range at that very press, and nothing else moves the score. Bonus
/// mode does not start and every state on the way is well formed.
pub proof fn lemma_plain_keys_count(state: AppState, keys: Seq<u16>, draws: Seq<u32>)
    requires
        state.wf(),
        !state.bonus_active,
        keys.len() == draws.len(),
        state.counter + keys.len() <= u32::MAX,
        forall|i: int| 0 <= i < keys.len() ==> plain_key(#[trigger] keys[i]),
        forall|i: int| 0 <= i < draws.len() ==> state.mode.permits(#[trigger] draws[i]),
    ensures
        forall|i: int, j: int|
            0 <= i < keys.len() && j == i + 1 ==> counted_step(
                #[trigger] state_before(state, keys, draws, i),
                #[trigger] state_before(state, keys, draws, j),
                draws[i],
            ),
        forall|i: int|
            0 <= i <= keys.len() ==> {
                let at = #[trigger] state_before(state, keys, draws, i);
                &&& at.wf()
                &&& !at.bonus_active
                &&& at.mode == state.mode
                &&& state.counter <= at.counter <= state.counter + i
            },
{
    assert forall|i: int| 0 <= i <= keys.len() implies {
        let at = #[trigger] state_before(state, keys, draws, i);
        &&& at.wf()
        &&& !at.bonus_active
        &&& at.mode == state.mode
        &&& state.counter <= at.counter <= state.counter + i
    } by {
        lemma_plain_keys_keep_order(state, keys, draws, i);
    }
    assert forall|i: int, j: int| 0 <= i < keys.len() && j == i + 1 implies counted_step(
        #[trigger] state_before(state, keys, draws, i),
        #[trigger] state_before(state, keys, draws, j),
        draws[i],
    ) by {
        lemma_plain_keys_keep_order(state, keys, draws, i);
        lemma_state_before_next(state, keys, draws, i);
        assert(plain_key(keys[i]));
        assert(state.mode.permits(draws[i]));
        lemma_counted_press(state_before(state, keys, draws, i), keys[i], draws[i]);
    }
}

/// In test mode every plain key press outside bonus mode scores: after `n`
/// of them the score is up by exactly `n`.
pub proof fn lemma_test_mode_scores_every_key(state: AppState, keys: Seq<u16>, draws: Seq<u32>)
    requires
        state.wf(),
        !state.bonus_active,
        state.mode == GameMode::Test,
        keys.len() == draws.len(),
        state.counter + keys.len() <= u32::MAX,
        forall|i: int| 0 <= i < keys.len() ==> plain_key(#[trigger] keys[i]),
        forall|i: int| 0 <= i < draws.len() ==> state.mode.permits(#[trigger] draws[i]),
    ensures
        after_keys(state, keys, draws).counter == state.counter + keys.len(),
        after_keys(state, keys, draws).wf(),
        !after_keys(state, keys, draws).bonus_active,
        after_keys(state, keys, draws).mode == GameMode::Test,
    decreases keys.len(),
{
    if keys.len() > 0 {
        let head = keys.drop_last();
        let head_draws = draws.drop_last();
        lemma_test_mode_scores_every_key(state, head, head_draws);
        let before = after_keys(state, head, head_draws);
        assert(plain_key(keys[keys.len() - 1]));
        assert(state.mode.permits(draws[draws.len() - 1]));
        lemma_counted_press(before, keys.last(), draws.last());
    }
}

/// Division with remainder, one step further: adding one to a number either
/// adds one to its remainder or, where the remainder was the largest there
/// is, adds one to the quotient and starts the remainder again at zero.
pub proof fn lemma_div_mod_next(x: int, d: int)
    requires
        0 <= x,
        0 < d,
    ensures
        0 <= x % d < d,
        x % d + 1 < d ==> (x + 1) / d == x / d && (x + 1) % d == x % d + 1,
        x % d + 1 == d ==> (x + 1) / d == x / d + 1 && (x + 1) % d == 0,
{
    vstd::arithmetic::div_mod::lemma_fundamental_div_mod(x, d);
    vstd::arithmetic::div_mod::lemma_mod_pos_bound(x, d);
    let q = x / d;
    let r = x % d;
    assert(x == d * q + r);
    if r + 1 < d {
        assert(x + 1 == q * d + (r + 1)) by (nonlinear_arith)
            requires
                x == d * q + r,
        ;
        vstd::arithmetic::div_mod::lemma_fundamental_div_mod_converse(x + 1, d, q, r + 1);
    } else {
        assert(x + 1 == (q + 1) * d + 0) by (nonlinear_arith)
            requires
                x == d * q + r,
                r + 1 == d,
        ;
        vstd::arithmetic::div_mod::lemma_fundamental_div_mod_converse(x + 1, d, q + 1, 0);
    }
}

/// With a threshold that stays the same, the score advances once every so
/// many key presses: if every draw gives the threshold `t` again, then `n`
/// plain key presses outside bonus mode, starting from a buffer that holds
/// `b`, add `(b + n) / t` points and leave `(b + n) % t` in the buffer.
pub proof fn lemma_steady_threshold_rate(state: AppState, keys: Seq<u16>, draws: Seq<u32>)
    requires
        state.wf(),
        !state.bonus_active,
        keys.len() == draws.len(),
        state.counter + keys.len() <= u32::MAX,
        forall|i: int| 0 <= i < keys.len() ==> plain_key(#[trigger] keys[i]),
        forall|i: int| 0 <= i < draws.len() ==> #[trigger] draws[i] == state.target_keystrokes,
    ensures
        ({
            let end = after_keys(state, keys, draws);
            let pressed = state.keystroke_buffer + keys.len();
            let t = state.target_keystrokes as int;
            &&& end.counter == state.counter + pressed / t
            &&& end.keystroke_buffer == pressed % t
            &&& end.target_keystrokes == state.target_keystrokes
            &&& end.backslash_count == (if keys.len() == 0 {
                state.backslash_count
            } else {
                0
            })
            &&& !end.bonus_active
            &&& end.mode == state.mode
            &&& end.wf()
        }),
    decreases keys.len(),
{
    let t = state.target_keystrokes as int;
    if keys.len() == 0 {
        vstd::arithmetic::div_mod::lemma_small_mod(state.keystroke_buffer as nat, t as nat);
        vstd::arithmetic::div_mod::lemma_basic_div(state.keystroke_buffer as int, t);
    } else {
        let head = keys.drop_last();
        let head_draws = draws.drop_last();
        lemma_steady_threshold_rate(state, head, head_draws);
        let before = after_keys(state, head, head_draws);
        let pressed = state.keystroke_buffer + head.len();
        lemma_div_mod_next(pressed, t);
        assert(plain_key(keys[keys.len() - 1]));
        assert(draws[draws.len() - 1] == state.target_keystrokes);
        assert(pressed / t <= head.len()) by {
            vstd::arithmetic::div_mod::lemma_fundamental_div_mod(pressed, t);
            assert(pressed / t <= head.len()) by (nonlinear_arith)
                requires
                    pressed == t * (pressed / t) + pressed % t,
                    0 <= pressed % t,
                    1 <= t,
                    pressed < t + head.len(),
                    0 <= head.len(),
            ;
        }
        lemma_counted_press(before, keys.last(), draws.last());
    }
}

/// Three trigger presses in a row, at a score high enough for the combo and
/// outside bonus mode, start bonus mode exactly once: afterwards the bonus
/// flag is set, the streak is back at zero and nothing else has changed; the
/// status label was persisted as the bonus label, exactly one command went to
/// the audio bus, the intro-then-loop command, and the timer was started once.
pub proof fn lemma_three_presses_start_bonus(state: AppState, draws: Seq<u32>)
    requires
        state.wf(),
        !state.bonus_active,
        state.counter >= COMBO_MIN_SCORE,
        draws.len() == 3,
    ensures
        ({
            let keys = seq![TRIGGER_KEY, TRIGGER_KEY, TRIGGER_KEY];
            let effects = effects_of_keys(state, keys, draws);
            &&& after_keys(state, keys, draws) == (AppState {
                bonus_active: true,
                backslash_count: 0,
                ..state
            })
            &&& effects == seq![
                EffectView::PersistStatus(StatusLabel::SuperChargeFlash),
                EffectView::Enqueue(
                    CommandView::PlayAndLoop {
                        intro: SoundId::BonusIntro,
                        looping: SoundId::BonusLoop,
                    },
                ),
                EffectView::StartBonusTimer,
            ]
            &&& count_enqueued(effects) == 1
        }),
{
    let keys = seq![TRIGGER_KEY, TRIGGER_KEY, TRIGGER_KEY];
    let keys2 = seq![TRIGGER_KEY, TRIGGER_KEY];
    let keys1 = seq![TRIGGER_KEY];
    let draws2 = draws.drop_last();
    let draws1 = draws2.drop_last();
    let draws0 = draws1.drop_last();
    assert(keys.drop_last() =~= keys2);
    assert(keys2.drop_last() =~= keys1);
    assert(keys1.drop_last() =~= Seq::<u16>::empty());
    let s0 = after_keys(state, keys1.drop_last(), draws0);
    assert(s0 == state);
    let s1 = after_keys(state, keys1, draws1);
    assert(s1 == next_state(s0, TRIGGER_KEY, draws1.last()));
    let s2 = after_keys(state, keys2, draws2);
    assert(s2 == next_state(s1, TRIGGER_KEY, draws2.last()));
    let s3 = after_keys(state, keys, draws);
    assert(s3 == next_state(s2, TRIGGER_KEY, draws.last()));
    let e0 = effects_of_keys(state, keys1.drop_last(), draws0);
    assert(e0 =~= Seq::<EffectView>::empty());
    let e1 = effects_of_keys(state, keys1, draws1);
    assert(e1 =~= e0 + key_effects(s0, TRIGGER_KEY));
    let e2 = effects_of_keys(state, keys2, draws2);
    assert(e2 =~= e1 + key_effects(s1, TRIGGER_KEY));
    let e3 = effects_of_keys(state, keys, draws);
    assert(e3 =~= e2 + key_effects(s2, TRIGGER_KEY));
    let persist = EffectView::PersistStatus(StatusLabel::SuperChargeFlash);
    let play = EffectView::Enqueue(
        CommandView::PlayAndLoop { intro: SoundId::BonusIntro, looping: SoundId::BonusLoop },
    );
    let start = EffectView::StartBonusTimer;
    lemma_count_short(persist, play, start);
    assert(e3 =~= seq![persist, play, start]);
}

} // verus!
