//! What a state change asks of the world outside: writes to the persisted
//! sink, commands for the audio bus, and the start of the bonus timer.

use vstd::prelude::*;
use crate::audio::{AudioCommand, CommandView};

verus! {

/// The coarse status that an external display reads from the sink.
#[derive(Clone, Copy, Debug, PartialEq, Eq, Structural)]
pub enum StatusLabel {
    /// Normal operation.
    Flashing,
    /// Bonus mode is running.
    SuperChargeFlash,
}

impl StatusLabel {
    /// The token that stands for this label in the sink.
    pub open spec fn text(self) -> Seq<char> {
        match self {
            StatusLabel::Flashing => "flashing"@,
            StatusLabel::SuperChargeFlash => "super-charge-flash"@,
        }
    }

    /// The label that goes with the bonus flag.
    pub open spec fn of_bonus(bonus_active: bool) -> StatusLabel {
        if bonus_active {
            StatusLabel::SuperChargeFlash
        } else {
            StatusLabel::Flashing
        }
    }

    /// The token to write to the sink, with no newline.
    pub fn as_str(self) -> (token: &'static str)
        ensures
            token@ == self.text(),
    {
        match self {
            StatusLabel::Flashing => "flashing",
            StatusLabel::SuperChargeFlash => "super-charge-flash",
        }
    }

    /// The label to show while the bonus flag has the given value.
    pub fn for_bonus(bonus_active: bool) -> (label: StatusLabel)
        ensures
            label == StatusLabel::of_bonus(bonus_active),
    {
        if bonus_active {
            StatusLabel::SuperChargeFlash
        } else {
            StatusLabel::Flashing
        }
    }
}

/// One thing for the caller to do after a state change, while it still holds
/// exclusive access to the state.
#[derive(Clone, Debug, PartialEq, Eq)]
pub enum Effect {
    /// Overwrite the persisted counter with this value, in base 10.
    PersistCounter(u32),
    /// Overwrite the persisted status label.
    PersistStatus(StatusLabel),
    /// Append a command to the audio bus.
    Enqueue(AudioCommand),
    /// Start the bonus timer, which from now on owns the counter.
    StartBonusTimer,
}

/// The mathematical content of an [`Effect`].
pub enum EffectView {
    PersistCounter(u32),
    PersistStatus(StatusLabel),
    Enqueue(CommandView),
    StartBonusTimer,
}

impl View for Effect {
    type V = EffectView;

    open spec fn view(&self) -> EffectView {
        match *self {
            Effect::PersistCounter(value) => EffectView::PersistCounter(value),
            Effect::PersistStatus(label) => EffectView::PersistStatus(label),
            Effect::Enqueue(command) => EffectView::Enqueue(command@),
            Effect::StartBonusTimer => EffectView::StartBonusTimer,
        }
    }
}

/// What the caller does when carrying out an effect fails.
#[derive(Clone, Copy, Debug, PartialEq, Eq, Structural)]
pub enum OnFailure {
    /// Drop the effects that follow and hand the error to whoever asked for
    /// the state change.
    Abort,
    /// Note the error and go on with the effects that follow.
    Continue,
}

/// The outward side of one state change: effects in the order in which they
/// are to be carried out, and what to do when one of them fails.
#[derive(Clone, Debug, PartialEq, Eq)]
pub struct Reaction {
    pub effects: Vec<Effect>,
    pub on_failure: OnFailure,
}

/// The mathematical content of a [`Reaction`].
pub struct ReactionView {
    pub effects: Seq<EffectView>,
    pub on_failure: OnFailure,
}

impl View for Reaction {
    type V = ReactionView;

    open spec fn view(&self) -> ReactionView {
        ReactionView {
            effects: self.effects@.map_values(|effect: Effect| effect@),
            on_failure: self.on_failure,
        }
    }
}

impl ReactionView {
    /// How many of the effects put a command on the audio bus.
    pub open spec fn enqueued(self) -> nat {
        count_enqueued(self.effects)
    }
}

/// One for an effect that puts a command on the audio bus, zero for any
/// other.
pub open spec fn enqueues(effect: EffectView) -> nat {
    if effect is Enqueue {
        1
    } else {
        0
    }
}

/// How many of the effects put a command on the audio bus.
pub open spec fn count_enqueued(effects: Seq<EffectView>) -> nat
    decreases effects.len(),
{
    if effects.len() == 0 {
        0
    } else {
        count_enqueued(effects.drop_last()) + enqueues(effects.last())
    }
}

/// Counting commands after one more effect is appended.
pub proof fn lemma_count_push(effects: Seq<EffectView>, effect: EffectView)
    ensures
        count_enqueued(effects.push(effect)) == count_enqueued(effects) + enqueues(effect),
{
    assert(effects.push(effect).drop_last() =~= effects);
}

/// Counting commands in two lists of effects laid end to end.
pub proof fn lemma_count_concat(first: Seq<EffectView>, second: Seq<EffectView>)
    ensures
        count_enqueued(first + second) == count_enqueued(first) + count_enqueued(second),
    decreases second.len(),
{
    if second.len() == 0 {
        assert(first + second =~= first);
    } else {
        lemma_count_concat(first, second.drop_last());
        assert((first + second).drop_last() =~= first + second.drop_last());
    }
}

/// Counting commands in lists of up to three effects.
pub proof fn lemma_count_short(a: EffectView, b: EffectView, c: EffectView)
    ensures
        count_enqueued(seq![]) == 0,
        count_enqueued(seq![a]) == enqueues(a),
        count_enqueued(seq![a, b]) == enqueues(a) + enqueues(b),
        count_enqueued(seq![a, b, c]) == enqueues(a) + enqueues(b) + enqueues(c),
{
    let none = Seq::<EffectView>::empty();
    assert(seq![a] =~= none.push(a));
    assert(seq![a, b] =~= seq![a].push(b));
    assert(seq![a, b, c] =~= seq![a, b].push(c));
    lemma_count_push(none, a);
    lemma_count_push(seq![a], b);
    lemma_count_push(seq![a, b], c);
}

} // verus!
