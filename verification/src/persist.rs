//! The persisted sink as the core sees it: the score as base-10 text, the
//! status label as a token, and what startup makes of what it finds there.

use vstd::prelude::*;
use vstd::string::StringExecFns;
use crate::effect::{Effect, EffectView, OnFailure, Reaction, ReactionView, StatusLabel};
use crate::text::chars_of;

verus! {

/// The character for one decimal digit.
pub open spec fn digit_char(digit: nat) -> char {
    if digit == 0 {
        '0'
    } else if digit == 1 {
        '1'
    } else if digit == 2 {
        '2'
    } else if digit == 3 {
        '3'
    } else if digit == 4 {
        '4'
    } else if digit == 5 {
        '5'
    } else if digit == 6 {
        '6'
    } else if digit == 7 {
        '7'
    } else if digit == 8 {
        '8'
    } else {
        '9'
    }
}

/// A number in base 10, most significant digit first, with no sign and no
/// leading zero; zero is "0".
pub open spec fn decimal(n: nat) -> Seq<char>
    decreases n,
{
    if n < 10 {
        seq![digit_char(n)]
    } else {
        decimal(n / 10).push(digit_char(n % 10))
    }
}

/// Whether a character is one of the ten decimal digits.
pub open spec fn is_digit(c: char) -> bool {
    48 <= c as u32 <= 57
}

/// The number a decimal digit stands for.
pub open spec fn digit_value(c: char) -> nat {
    (c as u32 - 48) as nat
}

/// The number that a run of decimal digits stands for.
pub open spec fn digits_value(digits: Seq<char>) -> nat
    decreases digits.len(),
{
    if digits.len() == 0 {
        0
    } else {
        digits_value(digits.drop_last()) * 10 + digit_value(digits.last())
    }
}

/// Whether every character is a decimal digit.
pub open spec fn all_digits(text: Seq<char>) -> bool {
    forall|i: int| 0 <= i < text.len() ==> is_digit(#[trigger] text[i])
}

/// The digits of an unsigned number written as text: what is left when one
/// leading plus sign, if there is one, is taken off.
pub open spec fn unsigned_body(text: Seq<char>) -> Seq<char> {
    if text.len() > 0 && text[0] == '+' {
        text.skip(1)
    } else {
        text
    }
}

/// The number that a text stands for as an unsigned integer: an optional
/// plus sign and then at least one digit, nothing before, between or after.
pub open spec fn unsigned_value(text: Seq<char>) -> Option<nat> {
    let body = unsigned_body(text);
    if body.len() > 0 && all_digits(body) {
        Some(digits_value(body))
    } else {
        None
    }
}

/// The score that startup takes from persisted text: its value where the
/// text is an unsigned integer that fits the score, and zero where it is
/// malformed or too large.
pub open spec fn persisted_counter(text: Seq<char>) -> u32 {
    match unsigned_value(text) {
        Some(value) => if value <= u32::MAX {
            value as u32
        } else {
            0
        },
        None => 0,
    }
}

/// The text of one decimal digit.
fn digit_str(digit: u32) -> (text: &'static str)
    requires
        digit < 10,
    ensures
        text@ == seq![digit_char(digit as nat)],
{
    proof {
        reveal_strlit("0");
        reveal_strlit("1");
        reveal_strlit("2");
        reveal_strlit("3");
        reveal_strlit("4");
        reveal_strlit("5");
        reveal_strlit("6");
        reveal_strlit("7");
        reveal_strlit("8");
        reveal_strlit("9");
    }
    let text = if digit == 0 {
        "0"
    } else if digit == 1 {
        "1"
    } else if digit == 2 {
        "2"
    } else if digit == 3 {
        "3"
    } else if digit == 4 {
        "4"
    } else if digit == 5 {
        "5"
    } else if digit == 6 {
        "6"
    } else if digit == 7 {
        "7"
    } else if digit == 8 {
        "8"
    } else {
        "9"
    };
    assert(text@ =~= seq![digit_char(digit as nat)]);
    text
}

/// Appends a number in base 10 to a text.
fn push_decimal(n: u32, text: &mut String)
    ensures
        final(text)@ == old(text)@ + decimal(n as nat),
    decreases n,
{
    if n >= 10 {
        push_decimal(n / 10, text);
    }
    text.append(digit_str(n % 10));
    assert(final(text)@ =~= old(text)@ + decimal(n as nat));
}

/// The text that the sink holds for a score: base 10, no newline.
pub fn format_counter(counter: u32) -> (text: String)
    ensures
        text@ == decimal(counter as nat),
{
    let mut text = String::new();
    push_decimal(counter, &mut text);
    assert(text@ =~= decimal(counter as nat));
    text
}

/// A run of digits stands for at least as much as any of its beginnings.
pub proof fn lemma_digits_value_grows(digits: Seq<char>, k: int)
    requires
        0 <= k <= digits.len(),
    ensures
        digits_value(digits.take(k)) <= digits_value(digits),
    decreases digits.len() - k,
{
    if k < digits.len() {
        lemma_digits_value_grows(digits, k + 1);
        assert(digits.take(k + 1).drop_last() =~= digits.take(k));
        assert(digits_value(digits.take(k)) * 10 >= digits_value(digits.take(k)));
    } else {
        assert(digits.take(k) =~= digits);
    }
}

/// Reads a score from persisted text; malformed text and numbers too large
/// for the score give zero.
pub fn parse_counter(text: &str) -> (counter: u32)
    ensures
        counter == persisted_counter(text@),
{
    let chars = chars_of(text);
    let n: usize = chars.len();
    let start: usize = if n > 0 && chars[0] == '+' {
        1
    } else {
        0
    };
    let ghost body = unsigned_body(text@);
    assert(body =~= chars@.skip(start as int));
    if start == n {
        return 0;
    }
    let mut value: u32 = 0;
    let mut i: usize = start;
    while i < n
        invariant
            start <= i <= n,
            n == chars.len(),
            body == chars@.skip(start as int),
            body == unsigned_body(text@),
            all_digits(body.take(i - start)),
            value == digits_value(body.take(i - start)),
        decreases n - i,
    {
        let code: u32 = chars[i] as u32;
        assert(chars[i as int] == body[i - start]);
        if code < 48 || code > 57 {
            assert(!is_digit(body[i - start]));
            return 0;
        }
        let digit: u32 = code - 48;
        let ghost longer = body.take(i - start + 1);
        assert(longer.drop_last() =~= body.take(i - start));
        assert(longer.last() == body[i - start]);
        assert(all_digits(longer)) by {
            assert forall|j: int| 0 <= j < longer.len() implies is_digit(#[trigger] longer[j]) by {
                if j < i - start {
                    assert(longer[j] == body.take(i - start)[j]);
                }
            }
        }
        if value > (u32::MAX - digit) / 10 {
            proof {
                assert(digits_value(longer) > u32::MAX);
                lemma_digits_value_grows(body, i - start + 1);
                if !all_digits(body) {
                } else {
                    assert(digits_value(body) > u32::MAX);
                }
            }
            return 0;
        }
        value = value * 10 + digit;
        i += 1;
    }
    assert(body.take(n - start) =~= body);
    value
}

/// Writing a score and reading it back gives the same score.
pub proof fn lemma_counter_round_trip(counter: u32)
    ensures
        persisted_counter(decimal(counter as nat)) == counter,
{
    lemma_decimal_reads_back(counter as nat);
}

/// Base-10 text is made of digits only, at least one, and stands for the
/// number it was made from.
pub proof fn lemma_decimal_reads_back(n: nat)
    ensures
        decimal(n).len() > 0,
        all_digits(decimal(n)),
        digits_value(decimal(n)) == n,
        unsigned_value(decimal(n)) == Some(n),
    decreases n,
{
    let text = decimal(n);
    if n < 10 {
        assert(text.drop_last() =~= Seq::<char>::empty());
        assert(digits_value(text.drop_last()) == 0);
        assert(text.last() == digit_char(n));
        assert(digit_value(digit_char(n)) == n);
    } else {
        lemma_decimal_reads_back(n / 10);
        assert(text.drop_last() =~= decimal(n / 10));
        assert(text.last() == digit_char(n % 10));
        assert(digit_value(digit_char(n % 10)) == n % 10);
        assert forall|i: int| 0 <= i < text.len() implies is_digit(#[trigger] text[i]) by {
            if i < text.len() - 1 {
                assert(text[i] == decimal(n / 10)[i]);
            }
        }
    }
    assert(is_digit(text[0]));
    assert(text[0] != '+');
}

/// What startup does about the sink, and the score it starts from.
#[derive(Clone, Debug, PartialEq, Eq)]
pub struct Startup {
    /// The score to start from.
    pub counter: u32,
    /// What to write to the sink before anything else happens; a write that
    /// fails ends the startup.
    pub reaction: Reaction,
}

/// Whether startup overwrites the sink: always when told to reset, and also
/// when the sink holds no score yet.
pub open spec fn startup_resets(reset: bool, persisted: Option<Seq<char>>) -> bool {
    reset || persisted is None
}

/// The score that startup begins with.
pub open spec fn startup_counter(reset: bool, persisted: Option<Seq<char>>) -> u32 {
    if startup_resets(reset, persisted) {
        0
    } else {
        persisted_counter(persisted->0)
    }
}

/// The writes with which startup resets the sink; none when it keeps what
/// is there.
pub open spec fn startup_effects(reset: bool, persisted: Option<Seq<char>>) -> Seq<EffectView> {
    if startup_resets(reset, persisted) {
        seq![EffectView::PersistCounter(0), EffectView::PersistStatus(StatusLabel::Flashing)]
    } else {
        seq![]
    }
}

/// The view of the optional text found in the sink.
pub open spec fn persisted_view(persisted: Option<&str>) -> Option<Seq<char>> {
    match persisted {
        Some(text) => Some(text@),
        None => None,
    }
}

/// Decides how to begin: either reset the sink to a score of zero and the
/// normal status label, or take the score over from the text found in the
/// sink. `persisted` is `None` when the sink holds no score yet.
pub fn startup(reset: bool, persisted: Option<&str>) -> (plan: Startup)
    ensures
        plan.counter == startup_counter(reset, persisted_view(persisted)),
        plan.reaction@ == (ReactionView {
            effects: startup_effects(reset, persisted_view(persisted)),
            on_failure: OnFailure::Abort,
        }),
{
    let mut effects: Vec<Effect> = Vec::new();
    let counter: u32 = match persisted {
        Some(text) if !reset => parse_counter(text),
        _ => {
            effects.push(Effect::PersistCounter(0));
            effects.push(Effect::PersistStatus(StatusLabel::Flashing));
            0
        },
    };
    let reaction = Reaction { effects, on_failure: OnFailure::Abort };
    assert(reaction@.effects =~= startup_effects(reset, persisted_view(persisted)));
    Startup { counter, reaction }
}

} // verus!
