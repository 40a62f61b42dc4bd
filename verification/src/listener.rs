//! The device listener's decisions: which device a name hint picks, and
//! which raw events count as key presses.

use vstd::prelude::*;
use crate::text::{contains_text, text_contains};

verus! {

/// The event type that input devices give to key and button changes.
pub const KEY_EVENT_TYPE: u16 = 1;

/// The value a key event carries when the key goes down (0 is a release,
/// 2 an autorepeat).
pub const PRESS_VALUE: i32 = 1;

/// One record of a device's raw event stream, as plain numbers.
#[derive(Clone, Copy, Debug, PartialEq, Eq, Structural)]
pub struct RawEvent {
    /// What kind of thing changed (a key, an axis, a switch, ...).
    pub event_type: u16,
    /// Which one of that kind.
    pub code: u16,
    /// Its new value.
    pub value: i32,
}

impl RawEvent {
    /// The key this event reports as newly pressed, if it reports one.
    pub open spec fn pressed(self) -> Option<u16> {
        if self.value == PRESS_VALUE && self.event_type == KEY_EVENT_TYPE {
            Some(self.code)
        } else {
            None
        }
    }
}

/// The key code of an event that `evdev::InputEvent::kind` classifies as a
/// key event. Trusted: `kind` answers `InputEventKind::Key` holding the
/// event's own code exactly when the event type is `EventType::KEY`, which is
/// 1, and some other variant for every other type; the value plays no part.
#[verifier::external_body]
fn key_of_event(event_type: u16, code: u16, value: i32) -> (key: Option<u16>)
    ensures
        key == if event_type == KEY_EVENT_TYPE {
            Some(code)
        } else {
            None::<u16>
        },
{
    match evdev::InputEvent::new(evdev::EventType(event_type), code, value).kind() {
        evdev::InputEventKind::Key(key) => Some(key.code()),
        _ => None,
    }
}

/// Filters a raw event down to a key press: releases, autorepeats and
/// everything that is not a key yield `None`.
pub fn pressed_key(event: RawEvent) -> (key: Option<u16>)
    ensures
        key == event.pressed(),
{
    if event.value == PRESS_VALUE {
        key_of_event(event.event_type, event.code, event.value)
    } else {
        None
    }
}

/// Whether a device of this name, if it has one, answers to the hint: the
/// hint stands somewhere in the name.
pub open spec fn device_matches(name: Option<String>, hint: Seq<char>) -> bool {
    match name {
        Some(text) => contains_text(text@, hint),
        None => false,
    }
}

/// Picks the device for a name hint: the position of the first device whose
/// name contains the hint, or `None` when no device does, in which case no
/// listener is started for the hint.
pub fn find_device(names: &Vec<Option<String>>, hint: &str) -> (found: Option<usize>)
    ensures
        match found {
            Some(at) => {
                &&& at < names.len()
                &&& device_matches(names[at as int], hint@)
                &&& forall|earlier: int|
                    0 <= earlier < at ==> !device_matches(#[trigger] names[earlier], hint@)
            },
            None => forall|at: int|
                0 <= at < names.len() ==> !device_matches(#[trigger] names[at], hint@),
        },
{
    let mut at: usize = 0;
    while at < names.len()
        invariant
            at <= names.len(),
            forall|earlier: int|
                0 <= earlier < at ==> !device_matches(#[trigger] names[earlier], hint@),
        decreases names.len() - at,
    {
        let answers = match &names[at] {
            Some(name) => text_contains(name.as_str(), hint),
            None => false,
        };
        if answers {
            return Some(at);
        }
        at += 1;
    }
    None
}

} // verus!
